//! Reconciliation claims: the fence that one worker holds on one submission.

use crate::background::graph::{
    BackgroundClaimGraph, ClaimGraphSnapshot, acknowledged_and_open, claimable, expired,
    graph_fault, graph_read, load_background_claim_graph, validate_claimable_submission,
};
use crate::background::identity::{BackgroundAudit, BackgroundChange, audited, background_audit};
use crate::background::limits::{AiOpenAiBackgroundReconciliationLimits, ReconciliationBounds};
use crate::background::rows::{AiProviderBackgroundSubmissionRecord, SubmissionWrite};
use crate::background::state::{
    BackgroundSubmissionState, submission_state_of, submission_state_round_trip,
};
use crate::clock::{Duration, NANOS_PER_SECOND, UtcTime, calendar_second};
use crate::digest::Uuid;
use crate::egress::{column_holds, same_id_option};
use crate::error::{AiError, ErrorModel, OrmErrorCode, refusal};
use crate::principal::{AiScope, PrincipalReference};
use crate::provider::DataClassification;
use crate::text::{option_is_text, same_text, text_option};
use vstd::prelude::*;

verus! {

/// Receipt that was matched to a submission.
#[derive(Debug, PartialEq, Eq)]
pub struct MatchedBackgroundReceipt {
    pub id: Uuid,
    pub provider_kind: String,
    pub provider_event_kind: String,
}

/// What a claim proves about its submission.
#[derive(PartialEq, Eq)]
pub struct ClaimDetails {
    pub submission_id: Uuid,
    pub submission_key: String,
    pub session_id: Uuid,
    pub run_id: Uuid,
    pub attempt_id: Uuid,
    pub original_lease_generation: i64,
    pub principal_reference: PrincipalReference,
    pub worker_id: String,
    pub reconciliation_generation: i64,
    pub reconciliation_lease_expires_at: UtcTime,
    pub row_version: i64,
    pub retry_count: u32,
    pub reconciliation_deadline: UtcTime,
    pub provider_profile_id: String,
    pub provider_model: String,
    pub maximum_output_tokens: u64,
    pub provider_store: bool,
    pub provider_response_id: String,
    pub provider_created_at: i64,
    pub request_hash: String,
    pub budget_reservation_id: Uuid,
    pub original_egress_decision_id: Uuid,
    pub original_egress_manifest_hash: String,
    pub original_egress_destination: String,
    pub original_maximum_classification: DataClassification,
    pub retrieval_egress_decision_id: Option<Uuid>,
    pub scope: AiScope,
    pub matched_receipt: Option<MatchedBackgroundReceipt>,
}

/// Exact owner/generation/row-version proof for one background reconciliation
/// claim.
///
/// Callers cannot manufacture or alter a claim. The value grants no provider
/// credential, retrieval, egress, budget, output, or run-mutation authority.
/// Every operation reloads the durable row and checks the owner, generation,
/// expiry, immutable response binding, and row version. Identifiers are not
/// part of [`AiOpenAiBackgroundReconciliationClaim::redacted`].
#[derive(PartialEq, Eq)]
pub struct AiOpenAiBackgroundReconciliationClaim {
    details: ClaimDetails,
}

/// What may be shown of a claim.
#[derive(Debug, PartialEq, Eq)]
pub struct RedactedReconciliationClaim {
    pub original_lease_generation: i64,
    pub worker_id: String,
    pub reconciliation_generation: i64,
    pub reconciliation_lease_expires_at: UtcTime,
    pub retry_count: u32,
    pub reconciliation_deadline: UtcTime,
    pub provider_model: String,
    pub maximum_output_tokens: u64,
    pub provider_store: bool,
    pub provider_created_at: i64,
    pub original_maximum_classification: DataClassification,
    pub scope_kind: String,
}

impl View for AiOpenAiBackgroundReconciliationClaim {
    type V = ClaimDetails;

    closed spec fn view(&self) -> ClaimDetails {
        self.details
    }
}

impl AiOpenAiBackgroundReconciliationClaim {
    /// Expiry and deadline are calendar instants.
    pub open spec fn wf(self) -> bool {
        &&& self@.reconciliation_lease_expires_at.wf()
        &&& self@.reconciliation_deadline.wf()
    }

    /// What the claim proves.
    pub fn details(&self) -> (details: &ClaimDetails)
        ensures
            *details == self@,
    {
        &self.details
    }

    /// Opaque durable background submission identifier.
    pub fn submission_id(&self) -> (id: Uuid)
        ensures
            id == self@.submission_id,
    {
        self.details.submission_id
    }

    /// Owning run.
    pub fn run_id(&self) -> (id: Uuid)
        ensures
            id == self@.run_id,
    {
        self.details.run_id
    }

    /// Original provider-crossing attempt.
    pub fn attempt_id(&self) -> (id: Uuid)
        ensures
            id == self@.attempt_id,
    {
        self.details.attempt_id
    }

    /// Original run fencing generation bound to the provider request.
    pub fn original_lease_generation(&self) -> (generation: i64)
        ensures
            generation == self@.original_lease_generation,
    {
        self.details.original_lease_generation
    }

    /// Current reconciliation worker owner.
    pub fn worker_id(&self) -> (worker: &str)
        ensures
            worker@ == self@.worker_id@,
    {
        self.details.worker_id.as_str()
    }

    /// Monotonic reconciliation fencing generation.
    pub fn reconciliation_generation(&self) -> (generation: i64)
        ensures
            generation == self@.reconciliation_generation,
    {
        self.details.reconciliation_generation
    }

    /// Current claim expiry.
    pub fn reconciliation_lease_expires_at(&self) -> (expiry: UtcTime)
        ensures
            expiry == self@.reconciliation_lease_expires_at,
    {
        self.details.reconciliation_lease_expires_at
    }

    /// Number of prior nonterminal releases.
    pub fn retry_count(&self) -> (count: u32)
        ensures
            count == self@.retry_count,
    {
        self.details.retry_count
    }

    /// Immutable provider-response availability deadline.
    pub fn reconciliation_deadline(&self) -> (deadline: UtcTime)
        ensures
            deadline == self@.reconciliation_deadline,
    {
        self.details.reconciliation_deadline
    }

    /// What may be shown of the claim.
    pub fn redacted(&self) -> (view: RedactedReconciliationClaim)
        ensures
            view.original_lease_generation == self@.original_lease_generation,
            view.worker_id == self@.worker_id,
            view.reconciliation_generation == self@.reconciliation_generation,
            view.reconciliation_lease_expires_at == self@.reconciliation_lease_expires_at,
            view.retry_count == self@.retry_count,
            view.reconciliation_deadline == self@.reconciliation_deadline,
            view.provider_model == self@.provider_model,
            view.maximum_output_tokens == self@.maximum_output_tokens,
            view.provider_store == self@.provider_store,
            view.provider_created_at == self@.provider_created_at,
            view.original_maximum_classification == self@.original_maximum_classification,
            view.scope_kind == self@.scope.kind,
    {
        RedactedReconciliationClaim {
            original_lease_generation: self.details.original_lease_generation,
            worker_id: self.details.worker_id.clone(),
            reconciliation_generation: self.details.reconciliation_generation,
            reconciliation_lease_expires_at: self.details.reconciliation_lease_expires_at,
            retry_count: self.details.retry_count,
            reconciliation_deadline: self.details.reconciliation_deadline,
            provider_model: self.details.provider_model.clone(),
            maximum_output_tokens: self.details.maximum_output_tokens,
            provider_store: self.details.provider_store,
            provider_created_at: self.details.provider_created_at,
            original_maximum_classification: self.details.original_maximum_classification,
            scope_kind: self.details.scope.kind.clone(),
        }
    }

    /// The same claim with its lease renewed.
    fn renewed(self, expiry: UtcTime, row_version: i64) -> (claim: Self)
        ensures
            claim@ == (ClaimDetails {
                reconciliation_lease_expires_at: expiry,
                row_version,
                ..self@
            }),
    {
        AiOpenAiBackgroundReconciliationClaim {
            details: ClaimDetails {
                reconciliation_lease_expires_at: expiry,
                row_version,
                ..self.details
            },
        }
    }

    /// The same claim with an egress decision bound for one retrieval.
    pub(crate) fn with_retrieval(self, decision_id: Uuid, row_version: i64) -> (claim: Self)
        ensures
            claim@ == (ClaimDetails {
                retrieval_egress_decision_id: Some(decision_id),
                row_version,
                ..self@
            }),
    {
        AiOpenAiBackgroundReconciliationClaim {
            details: ClaimDetails {
                retrieval_egress_decision_id: Some(decision_id),
                row_version,
                ..self.details
            },
        }
    }
}

/// Whether the row carries exactly the binding that the claim was made for.
pub open spec fn claim_binds(
    submission: AiProviderBackgroundSubmissionRecord,
    claim: ClaimDetails,
) -> bool {
    &&& submission.id == claim.submission_id
    &&& submission.submission_key@ == claim.submission_key@
    &&& submission.session_id == claim.session_id
    &&& submission.run_id == claim.run_id
    &&& submission.attempt_id == claim.attempt_id
    &&& submission.lease_generation == claim.original_lease_generation
    &&& submission.provider_profile_id@ == claim.provider_profile_id@
    &&& submission.provider_model@ == claim.provider_model@
    &&& submission.maximum_output_tokens == claim.maximum_output_tokens
    &&& submission.provider_store == Some(claim.provider_store)
    &&& text_option(submission.provider_response_id) == Some(claim.provider_response_id@)
    &&& submission.provider_created_at == Some(claim.provider_created_at)
    &&& submission.request_hash@ == claim.request_hash@
    &&& submission.budget_reservation_id == claim.budget_reservation_id
    &&& submission.egress_decision_id == claim.original_egress_decision_id
    &&& submission.egress_manifest_hash@ == claim.original_egress_manifest_hash@
}

/// Whether the row carries exactly the binding that the claim was made for.
pub fn is_claim_bound(
    submission: &AiProviderBackgroundSubmissionRecord,
    claim: &ClaimDetails,
) -> (result: bool)
    ensures
        result == claim_binds(*submission, *claim),
{
    let store_matches: bool = match submission.provider_store {
        Some(stored) => stored == claim.provider_store,
        None => false,
    };
    let created_matches: bool = match submission.provider_created_at {
        Some(created) => created == claim.provider_created_at,
        None => false,
    };
    submission.id == claim.submission_id && same_text(
        submission.submission_key.as_str(),
        claim.submission_key.as_str(),
    ) && submission.session_id == claim.session_id && submission.run_id == claim.run_id
        && submission.attempt_id == claim.attempt_id && submission.lease_generation
        == claim.original_lease_generation && same_text(
        submission.provider_profile_id.as_str(),
        claim.provider_profile_id.as_str(),
    ) && same_text(submission.provider_model.as_str(), claim.provider_model.as_str())
        && column_holds(submission.maximum_output_tokens, claim.maximum_output_tokens)
        && store_matches && option_is_text(
        &submission.provider_response_id,
        claim.provider_response_id.as_str(),
    ) && created_matches && same_text(
        submission.request_hash.as_str(),
        claim.request_hash.as_str(),
    ) && submission.budget_reservation_id == claim.budget_reservation_id
        && submission.egress_decision_id == claim.original_egress_decision_id && same_text(
        submission.egress_manifest_hash.as_str(),
        claim.original_egress_manifest_hash.as_str(),
    )
}

/// Whether the row is held by this worker under this generation, with this
/// retrieval bound, unexpired and within its deadline.
pub open spec fn actively_held(
    submission: AiProviderBackgroundSubmissionRecord,
    worker_id: Seq<char>,
    generation: i64,
    retrieval: Option<Uuid>,
    second: int,
) -> bool {
    &&& submission.reconciliation_lease_expires_at is Some
    &&& submission.state@ == "reconciling"@
    &&& text_option(submission.reconciliation_owner) == Some(worker_id)
    &&& submission.reconciliation_generation == generation
    &&& submission.reconciliation_next_attempt_at == submission.reconciliation_lease_expires_at
    &&& submission.reconciliation_lease_expires_at->0 > second
    &&& submission.reconciliation_deadline is Some
    &&& submission.reconciliation_lease_expires_at->0 <= submission.reconciliation_deadline->0
    &&& submission.safe_error_code is None
    &&& submission.reconciled_at is None
    &&& submission.retrieval_egress_decision_id == retrieval
    &&& submission.terminal_message_id is None
}

/// Accepts exactly the rows that are actively held.
pub fn validate_active_reconciliation_record(
    submission: &AiProviderBackgroundSubmissionRecord,
    worker_id: &str,
    generation: i64,
    retrieval: Option<Uuid>,
    now: UtcTime,
) -> (result: Result<(), OrmErrorCode>)
    requires
        now.wf(),
    ensures
        result == if actively_held(
            *submission,
            worker_id@,
            generation,
            retrieval,
            now.second(),
        ) {
            Ok::<(), OrmErrorCode>(())
        } else {
            Err(OrmErrorCode::InternalError)
        },
{
    let second: i64 = now.unix_timestamp();
    let times_valid: bool = match (
        submission.reconciliation_lease_expires_at,
        submission.reconciliation_next_attempt_at,
        submission.reconciliation_deadline,
    ) {
        (Some(expiry), Some(next), Some(deadline)) => next == expiry && expiry > second && expiry
            <= deadline,
        _ => false,
    };
    if times_valid && same_text(submission.state.as_str(), "reconciling") && option_is_text(
        &submission.reconciliation_owner,
        worker_id,
    ) && submission.reconciliation_generation == generation && submission.safe_error_code.is_none()
        && submission.reconciled_at.is_none() && same_id_option(
        submission.retrieval_egress_decision_id,
        retrieval,
    ) && submission.terminal_message_id.is_none() {
        Ok(())
    } else {
        Err(OrmErrorCode::InternalError)
    }
}

/// Whether the row is in exactly the state that the claim was last given, and
/// the claim is live at `now`.
pub open spec fn claim_current(
    submission: AiProviderBackgroundSubmissionRecord,
    claim: ClaimDetails,
    now: UtcTime,
) -> bool {
    &&& claim_binds(submission, claim)
    &&& submission.retrieval_egress_decision_id == claim.retrieval_egress_decision_id
    &&& text_option(submission.reconciliation_owner) == Some(claim.worker_id@)
    &&& submission.reconciliation_generation == claim.reconciliation_generation
    &&& submission.reconciliation_lease_expires_at is Some
    &&& submission.reconciliation_lease_expires_at->0
        == claim.reconciliation_lease_expires_at.second()
    &&& submission.reconciliation_next_attempt_at == submission.reconciliation_lease_expires_at
    &&& submission.reconciliation_retry_count == claim.retry_count
    &&& submission.reconciliation_deadline is Some
    &&& submission.reconciliation_deadline->0 == claim.reconciliation_deadline.second()
    &&& submission.row_version == claim.row_version
    &&& claim.reconciliation_lease_expires_at.nanos > now.nanos
    &&& claim.reconciliation_deadline.nanos > now.nanos
}

/// Why a claim cannot be used on the row, in the order of checks.
pub open spec fn claim_use_fault(
    submission: AiProviderBackgroundSubmissionRecord,
    claim: ClaimDetails,
    now: UtcTime,
) -> Option<OrmErrorCode> {
    if !claim_current(submission, claim, now) {
        Some(OrmErrorCode::Conflict)
    } else if !actively_held(
        submission,
        claim.worker_id@,
        claim.reconciliation_generation,
        claim.retrieval_egress_decision_id,
        now.second(),
    ) {
        Some(OrmErrorCode::InternalError)
    } else {
        None
    }
}

/// Accepts the claim exactly where it is current and its row actively held.
pub fn validate_current_reconciliation_claim(
    submission: &AiProviderBackgroundSubmissionRecord,
    claim: &AiOpenAiBackgroundReconciliationClaim,
    now: UtcTime,
) -> (result: Result<(), OrmErrorCode>)
    requires
        claim.wf(),
        now.wf(),
    ensures
        match result {
            Ok(()) => claim_use_fault(*submission, claim@, now) is None,
            Err(code) => claim_use_fault(*submission, claim@, now) == Some(code),
        },
{
    let details = &claim.details;
    let expiry_second: i64 = details.reconciliation_lease_expires_at.unix_timestamp();
    let deadline_second: i64 = details.reconciliation_deadline.unix_timestamp();
    let times_match: bool = match (
        submission.reconciliation_lease_expires_at,
        submission.reconciliation_next_attempt_at,
        submission.reconciliation_deadline,
    ) {
        (Some(expiry), Some(next), Some(deadline)) => expiry == expiry_second && next == expiry
            && deadline == deadline_second,
        _ => false,
    };
    if !is_claim_bound(submission, details) || !same_id_option(
        submission.retrieval_egress_decision_id,
        details.retrieval_egress_decision_id,
    ) || !option_is_text(&submission.reconciliation_owner, details.worker_id.as_str())
        || submission.reconciliation_generation != details.reconciliation_generation || !times_match
        || submission.reconciliation_retry_count != details.retry_count as i64
        || submission.row_version != details.row_version
        || details.reconciliation_lease_expires_at.nanos <= now.nanos
        || details.reconciliation_deadline.nanos <= now.nanos {
        return Err(OrmErrorCode::Conflict);
    }
    validate_active_reconciliation_record(
        submission,
        details.worker_id.as_str(),
        details.reconciliation_generation,
        details.retrieval_egress_decision_id,
        now,
    )
}

/// Second at which a lease given at `now` runs out: never after the deadline.
pub open spec fn lease_end(now: UtcTime, lease_ttl: Duration, deadline: int) -> int {
    let configured = (UtcTime { nanos: (now.nanos + lease_ttl.nanos) as i128 }).second();
    if configured < deadline {
        configured
    } else {
        deadline
    }
}

/// The second at which a lease given at `now` runs out.
fn lease_end_second(now: UtcTime, lease_ttl: Duration, deadline: i64) -> (result: Result<
    i64,
    OrmErrorCode,
>)
    requires
        now.wf(),
        lease_ttl.wf(),
    ensures
        match result {
            Err(code) => code is InternalError && !(UtcTime {
                nanos: (now.nanos + lease_ttl.nanos) as i128,
            }).wf(),
            Ok(second) => (UtcTime { nanos: (now.nanos + lease_ttl.nanos) as i128 }).wf() && second
                == lease_end(now, lease_ttl, deadline as int),
        },
{
    let configured: i64 = match now.checked_add(lease_ttl) {
        Some(expiry) => expiry.unix_timestamp(),
        None => return Err(OrmErrorCode::InternalError),
    };
    if configured < deadline {
        Ok(configured)
    } else {
        Ok(deadline)
    }
}

/// Second against which candidate rows are selected; it must fit the store's
/// 32-bit filters.
pub fn filter_time(now: UtcTime) -> (result: Result<i32, AiError>)
    requires
        now.wf(),
    ensures
        refusal(result) == if now.second() <= i32::MAX && now.second() >= i32::MIN {
            None
        } else {
            Some(ErrorModel::PersistenceFailed)
        },
        result matches Ok(time) ==> time == now.second(),
{
    let second: i64 = now.unix_timestamp();
    if second < i32::MIN as i64 || second > i32::MAX as i64 {
        return Err(AiError::PersistenceFailed);
    }
    Ok(second as i32)
}

/// Every write of a claim transaction, apart from the matched receipt.
#[derive(Debug, PartialEq, Eq)]
pub struct ClaimPlan {
    pub submission: SubmissionWrite,
    pub audit: BackgroundAudit,
    pub graph: BackgroundClaimGraph,
}

/// Why a candidate cannot be claimed, in the order of checks.
pub open spec fn claim_fault(
    current: AiProviderBackgroundSubmissionRecord,
    snapshot: ClaimGraphSnapshot,
    now: UtcTime,
    bounds: ReconciliationBounds,
    owner_valid: bool,
) -> Option<OrmErrorCode> {
    if !claimable(current, now.second(), bounds.retries, owner_valid) {
        Some(OrmErrorCode::InternalError)
    } else if graph_fault(snapshot, current) is Some {
        graph_fault(snapshot, current)
    } else if current.reconciliation_generation == i64::MAX {
        Some(OrmErrorCode::InternalError)
    } else if !(UtcTime { nanos: (now.nanos + bounds.lease_ttl.nanos) as i128 }).wf() {
        Some(OrmErrorCode::InternalError)
    } else {
        None
    }
}

/// Whether the row is `before` with its next generation given to the worker
/// until `expiry`.
pub open spec fn claimed_row(
    before: AiProviderBackgroundSubmissionRecord,
    after: AiProviderBackgroundSubmissionRecord,
    worker_id: Seq<char>,
    expiry: int,
) -> bool {
    &&& after.state@ == "reconciling"@
    &&& text_option(after.reconciliation_owner) == Some(worker_id)
    &&& after.reconciliation_generation == before.reconciliation_generation + 1
    &&& after.reconciliation_lease_expires_at is Some
    &&& after.reconciliation_lease_expires_at->0 == expiry
    &&& after.reconciliation_next_attempt_at == after.reconciliation_lease_expires_at
    &&& after.retrieval_egress_decision_id is None
    &&& before == (AiProviderBackgroundSubmissionRecord {
        state: before.state,
        reconciliation_owner: before.reconciliation_owner,
        reconciliation_generation: before.reconciliation_generation,
        reconciliation_lease_expires_at: before.reconciliation_lease_expires_at,
        reconciliation_next_attempt_at: before.reconciliation_next_attempt_at,
        retrieval_egress_decision_id: before.retrieval_egress_decision_id,
        ..after
    })
}

/// Plans the claim of the oldest due candidate.
///
/// `candidates` are the waiting or reconciling rows that are due and within
/// their deadline, oldest first; only the first is considered. `snapshot`
/// holds the rows around it, and `owner_valid` tells whether its present
/// holder's identity is well formed.
pub fn claim_once(
    candidates: &Vec<AiProviderBackgroundSubmissionRecord>,
    snapshot: &ClaimGraphSnapshot,
    worker_id: &str,
    now: UtcTime,
    limits: AiOpenAiBackgroundReconciliationLimits,
    owner_valid: bool,
) -> (result: Result<Option<ClaimPlan>, OrmErrorCode>)
    requires
        now.wf(),
        now.nanos == now.second() * NANOS_PER_SECOND,
        limits.wf(),
    ensures
        match result {
            Err(code) => candidates@.len() > 0 && claim_fault(
                candidates@[0],
                *snapshot,
                now,
                limits@,
                owner_valid,
            ) == Some(code),
            Ok(None) => candidates@.len() == 0,
            Ok(Some(plan)) => {
                let current = candidates@[0];
                let expiry = lease_end(
                    now,
                    limits@.lease_ttl,
                    current.reconciliation_deadline->0 as int,
                );
                &&& candidates@.len() > 0
                &&& claim_fault(current, *snapshot, now, limits@, owner_valid) is None
                &&& plan.submission.expected_row_version == current.row_version
                &&& Some(plan.submission.expected_state) == submission_state_of(current.state@)
                &&& claimed_row(current, plan.submission.next, worker_id@, expiry)
                &&& actively_held(
                    plan.submission.next,
                    worker_id@,
                    (current.reconciliation_generation + 1) as i64,
                    None,
                    now.second(),
                )
                &&& audited(
                    plan.audit,
                    if plan.submission.expected_state is WaitingProvider {
                        BackgroundChange::Claim
                    } else {
                        BackgroundChange::Reclaim
                    },
                    worker_id@,
                    current.id,
                    current.id,
                    current.run_id,
                    "provider-background-reconciliation-v1"@,
                )
                &&& graph_read(plan.graph, *snapshot)
            },
        },
{
    if candidates.len() == 0 {
        return Ok(None);
    }
    let current = &candidates[0];
    match validate_claimable_submission(current, now, limits.maximum_retries(), owner_valid) {
        Ok(()) => {},
        Err(code) => return Err(code),
    }
    let graph: BackgroundClaimGraph = match load_background_claim_graph(snapshot, current) {
        Ok(graph) => graph,
        Err(code) => return Err(code),
    };
    let generation: i64 = match current.reconciliation_generation.checked_add(1) {
        Some(generation) => generation,
        None => return Err(OrmErrorCode::InternalError),
    };
    let deadline: i64 = match current.reconciliation_deadline {
        Some(deadline) => deadline,
        None => return Err(OrmErrorCode::InternalError),
    };
    let expiry: i64 = match lease_end_second(now, limits.lease_ttl(), deadline) {
        Ok(expiry) => expiry,
        Err(code) => return Err(code),
    };
    if expiry <= now.unix_timestamp() {
        return Err(OrmErrorCode::Conflict);
    }
    let (expected_state, change): (BackgroundSubmissionState, BackgroundChange) =
        match BackgroundSubmissionState::from_persisted(current.state.as_str()) {
        Some(BackgroundSubmissionState::WaitingProvider) => (
            BackgroundSubmissionState::WaitingProvider,
            BackgroundChange::Claim,
        ),
        Some(BackgroundSubmissionState::Reconciling) => (
            BackgroundSubmissionState::Reconciling,
            BackgroundChange::Reclaim,
        ),
        _ => return Err(OrmErrorCode::InternalError),
    };
    let mut next = current.clone();
    next.state = BackgroundSubmissionState::Reconciling.as_str().to_owned();
    next.reconciliation_owner = Some(worker_id.to_owned());
    next.reconciliation_generation = generation;
    next.reconciliation_lease_expires_at = Some(expiry);
    next.reconciliation_next_attempt_at = Some(expiry);
    next.retrieval_egress_decision_id = None;
    let audit = background_audit(
        change,
        worker_id,
        current.id,
        current.id,
        current.run_id,
        "provider-background-reconciliation-v1",
    );
    Ok(
        Some(
            ClaimPlan {
                submission: SubmissionWrite {
                    expected_row_version: current.row_version,
                    expected_state,
                    next,
                },
                audit,
                graph,
            },
        ),
    )
}

/// Whether the row can be turned into a claim.
pub open spec fn claim_readable(submission: AiProviderBackgroundSubmissionRecord) -> bool {
    &&& submission.reconciliation_owner is Some
    &&& submission.reconciliation_lease_expires_at is Some
    &&& calendar_second(submission.reconciliation_lease_expires_at->0 as int)
    &&& 0 <= submission.reconciliation_retry_count <= u32::MAX
    &&& submission.reconciliation_deadline is Some
    &&& calendar_second(submission.reconciliation_deadline->0 as int)
    &&& submission.maximum_output_tokens >= 0
    &&& submission.provider_store is Some
    &&& submission.provider_response_id is Some
    &&& submission.provider_created_at is Some
}

/// Whether the claim is that of the row's holder, with what the graph says.
pub open spec fn claim_reads(
    claim: ClaimDetails,
    submission: AiProviderBackgroundSubmissionRecord,
    graph: BackgroundClaimGraph,
    matched_receipt: Option<MatchedBackgroundReceipt>,
) -> bool {
    &&& claim_binds(submission, claim)
    &&& claim.principal_reference == graph.principal_reference
    &&& Some(claim.worker_id) == submission.reconciliation_owner
    &&& claim.reconciliation_generation == submission.reconciliation_generation
    &&& claim.reconciliation_lease_expires_at == UtcTime::at(
        submission.reconciliation_lease_expires_at->0 as int,
    )
    &&& claim.row_version == submission.row_version
    &&& claim.retry_count == submission.reconciliation_retry_count
    &&& claim.reconciliation_deadline == UtcTime::at(
        submission.reconciliation_deadline->0 as int,
    )
    &&& claim.original_egress_destination == graph.original_egress_destination
    &&& claim.original_maximum_classification == graph.original_maximum_classification
    &&& claim.retrieval_egress_decision_id == submission.retrieval_egress_decision_id
    &&& claim.scope.kind == graph.scope_kind
    &&& claim.scope.id == graph.scope_id
    &&& claim.scope.tenant_id == graph.tenant_id
    &&& claim.matched_receipt == matched_receipt
}

/// The claim of the row's holder. `submission` is the row as the store
/// returned it from the claim.
pub fn claim_from_records(
    submission: &AiProviderBackgroundSubmissionRecord,
    graph: BackgroundClaimGraph,
    matched_receipt: Option<MatchedBackgroundReceipt>,
) -> (result: Result<AiOpenAiBackgroundReconciliationClaim, AiError>)
    ensures
        refusal(result) == if claim_readable(*submission) {
            None
        } else {
            Some(ErrorModel::PersistenceFailed)
        },
        result matches Ok(claim) ==> claim.wf() && claim_reads(
            claim@,
            *submission,
            graph,
            matched_receipt,
        ),
{
    let worker_id: String = match &submission.reconciliation_owner {
        Some(owner) => owner.clone(),
        None => return Err(AiError::PersistenceFailed),
    };
    let expiry: UtcTime = match submission.reconciliation_lease_expires_at {
        Some(second) => match UtcTime::from_unix_timestamp(second) {
            Some(expiry) => expiry,
            None => return Err(AiError::PersistenceFailed),
        },
        None => return Err(AiError::PersistenceFailed),
    };
    let retries: i64 = submission.reconciliation_retry_count;
    if retries < 0 || retries > u32::MAX as i64 {
        return Err(AiError::PersistenceFailed);
    }
    let deadline: UtcTime = match submission.reconciliation_deadline {
        Some(second) => match UtcTime::from_unix_timestamp(second) {
            Some(deadline) => deadline,
            None => return Err(AiError::PersistenceFailed),
        },
        None => return Err(AiError::PersistenceFailed),
    };
    if submission.maximum_output_tokens < 0 {
        return Err(AiError::PersistenceFailed);
    }
    let provider_store: bool = match submission.provider_store {
        Some(stored) => stored,
        None => return Err(AiError::PersistenceFailed),
    };
    let provider_response_id: String = match &submission.provider_response_id {
        Some(id) => id.clone(),
        None => return Err(AiError::PersistenceFailed),
    };
    let provider_created_at: i64 = match submission.provider_created_at {
        Some(created) => created,
        None => return Err(AiError::PersistenceFailed),
    };
    Ok(
        AiOpenAiBackgroundReconciliationClaim {
            details: ClaimDetails {
                submission_id: submission.id,
                submission_key: submission.submission_key.clone(),
                session_id: submission.session_id,
                run_id: submission.run_id,
                attempt_id: submission.attempt_id,
                original_lease_generation: submission.lease_generation,
                principal_reference: graph.principal_reference,
                worker_id,
                reconciliation_generation: submission.reconciliation_generation,
                reconciliation_lease_expires_at: expiry,
                row_version: submission.row_version,
                retry_count: retries as u32,
                reconciliation_deadline: deadline,
                provider_profile_id: submission.provider_profile_id.clone(),
                provider_model: submission.provider_model.clone(),
                maximum_output_tokens: submission.maximum_output_tokens as u64,
                provider_store,
                provider_response_id,
                provider_created_at,
                request_hash: submission.request_hash.clone(),
                budget_reservation_id: submission.budget_reservation_id,
                original_egress_decision_id: submission.egress_decision_id,
                original_egress_manifest_hash: submission.egress_manifest_hash.clone(),
                original_egress_destination: graph.original_egress_destination,
                original_maximum_classification: graph.original_maximum_classification,
                retrieval_egress_decision_id: submission.retrieval_egress_decision_id,
                scope: AiScope {
                    kind: graph.scope_kind,
                    id: graph.scope_id,
                    tenant_id: graph.tenant_id,
                },
                matched_receipt,
            },
        },
    )
}

/// Why a claim cannot be renewed, in the order of checks.
pub open spec fn heartbeat_fault(
    current: Option<AiProviderBackgroundSubmissionRecord>,
    claim: ClaimDetails,
    now: UtcTime,
    lease_ttl: Duration,
) -> Option<OrmErrorCode> {
    if current is None {
        Some(OrmErrorCode::NotFound)
    } else if claim_use_fault(current->0, claim, now) is Some {
        claim_use_fault(current->0, claim, now)
    } else if !(UtcTime { nanos: (now.nanos + lease_ttl.nanos) as i128 }).wf() {
        Some(OrmErrorCode::InternalError)
    } else if current->0.retrieval_egress_decision_id is Some {
        Some(OrmErrorCode::InternalError)
    } else {
        None
    }
}

/// Whether the row is `before` with its lease ending at `expiry`.
pub open spec fn renewed_row(
    before: AiProviderBackgroundSubmissionRecord,
    after: AiProviderBackgroundSubmissionRecord,
    expiry: int,
) -> bool {
    &&& after.reconciliation_lease_expires_at is Some
    &&& after.reconciliation_lease_expires_at->0 == expiry
    &&& after.reconciliation_next_attempt_at == after.reconciliation_lease_expires_at
    &&& before == (AiProviderBackgroundSubmissionRecord {
        reconciliation_lease_expires_at: before.reconciliation_lease_expires_at,
        reconciliation_next_attempt_at: before.reconciliation_next_attempt_at,
        ..after
    })
}

/// Plans the renewal of a claim. It never reaches past the deadline, and a
/// claim with a bound retrieval is not renewed.
pub fn heartbeat_once(
    current: &Option<AiProviderBackgroundSubmissionRecord>,
    claim: &AiOpenAiBackgroundReconciliationClaim,
    now: UtcTime,
    lease_ttl: Duration,
) -> (result: Result<SubmissionWrite, OrmErrorCode>)
    requires
        claim.wf(),
        now.wf(),
        now.nanos == now.second() * NANOS_PER_SECOND,
        lease_ttl.wf(),
        lease_ttl.nanos >= NANOS_PER_SECOND,
    ensures
        match result {
            Err(code) => heartbeat_fault(*current, claim@, now, lease_ttl) == Some(code),
            Ok(write) => {
                &&& heartbeat_fault(*current, claim@, now, lease_ttl) is None
                &&& write.expected_row_version == current->0.row_version
                &&& write.expected_state is Reconciling
                &&& renewed_row(
                    current->0,
                    write.next,
                    lease_end(now, lease_ttl, claim@.reconciliation_deadline.second()),
                )
                &&& actively_held(
                    write.next,
                    claim@.worker_id@,
                    claim@.reconciliation_generation,
                    None,
                    now.second(),
                )
            },
        },
{
    let row: &AiProviderBackgroundSubmissionRecord = match current {
        Some(row) => row,
        None => return Err(OrmErrorCode::NotFound),
    };
    match validate_current_reconciliation_claim(row, claim, now) {
        Ok(()) => {},
        Err(code) => return Err(code),
    }
    let deadline: i64 = claim.details.reconciliation_deadline.unix_timestamp();
    let expiry: i64 = match lease_end_second(now, lease_ttl, deadline) {
        Ok(expiry) => expiry,
        Err(code) => return Err(code),
    };
    if expiry <= now.unix_timestamp() {
        return Err(OrmErrorCode::Conflict);
    }
    let mut next = row.clone();
    next.reconciliation_lease_expires_at = Some(expiry);
    next.reconciliation_next_attempt_at = Some(expiry);
    match validate_active_reconciliation_record(
        &next,
        claim.details.worker_id.as_str(),
        claim.details.reconciliation_generation,
        None,
        now,
    ) {
        Ok(()) => {},
        Err(code) => return Err(code),
    }
    Ok(
        SubmissionWrite {
            expected_row_version: row.row_version,
            expected_state: BackgroundSubmissionState::Reconciling,
            next,
        },
    )
}

/// The claim after its renewal. `updated` is the row as the store returned it.
pub fn finish_heartbeat(
    claim: AiOpenAiBackgroundReconciliationClaim,
    updated: &AiProviderBackgroundSubmissionRecord,
    now: UtcTime,
) -> (result: Result<AiOpenAiBackgroundReconciliationClaim, OrmErrorCode>)
    requires
        claim.wf(),
        now.wf(),
    ensures
        match result {
            Err(code) => code is InternalError && !(actively_held(
                *updated,
                claim@.worker_id@,
                claim@.reconciliation_generation,
                None,
                now.second(),
            ) && calendar_second(updated.reconciliation_lease_expires_at->0 as int)),
            Ok(renewed) => {
                &&& actively_held(
                    *updated,
                    claim@.worker_id@,
                    claim@.reconciliation_generation,
                    None,
                    now.second(),
                )
                &&& renewed.wf()
                &&& renewed@ == (ClaimDetails {
                    reconciliation_lease_expires_at: UtcTime::at(
                        updated.reconciliation_lease_expires_at->0 as int,
                    ),
                    row_version: updated.row_version,
                    ..claim@
                })
            },
        },
{
    match validate_active_reconciliation_record(
        updated,
        claim.details.worker_id.as_str(),
        claim.details.reconciliation_generation,
        None,
        now,
    ) {
        Ok(()) => {},
        Err(code) => return Err(code),
    }
    let expiry: UtcTime = match updated.reconciliation_lease_expires_at {
        Some(second) => match UtcTime::from_unix_timestamp(second) {
            Some(expiry) => expiry,
            None => return Err(OrmErrorCode::InternalError),
        },
        None => return Err(OrmErrorCode::InternalError),
    };
    Ok(claim.renewed(expiry, updated.row_version))
}

/// The store's version after one more write of the row.
pub open spec fn stored(
    row: AiProviderBackgroundSubmissionRecord,
    row_version: i64,
) -> AiProviderBackgroundSubmissionRecord {
    AiProviderBackgroundSubmissionRecord { row_version, ..row }
}

/// A claim can be used right away: read from the row that the claim wrote, it
/// is current and actively held until its lease runs out.
pub proof fn fresh_claim_is_usable(
    before: AiProviderBackgroundSubmissionRecord,
    after: AiProviderBackgroundSubmissionRecord,
    row_version: i64,
    worker_id: Seq<char>,
    expiry: int,
    graph: BackgroundClaimGraph,
    matched_receipt: Option<MatchedBackgroundReceipt>,
    claim: AiOpenAiBackgroundReconciliationClaim,
    maximum_retries: nat,
    later: UtcTime,
)
    requires
        acknowledged_and_open(before, maximum_retries),
        claimed_row(before, after, worker_id, expiry),
        expiry <= before.reconciliation_deadline->0,
        claim.wf(),
        claim_reads(claim@, stored(after, row_version), graph, matched_receipt),
        later.wf(),
        calendar_second(expiry),
        calendar_second(before.reconciliation_deadline->0 as int),
        later.second() < expiry,
    ensures
        claim_use_fault(stored(after, row_version), claim@, later) is None,
{
    let row = stored(after, row_version);
    assert(row.provider_response_id == before.provider_response_id);
}

/// A renewed claim ends at its new lease's end or at its deadline, whichever
/// comes first, and otherwise stays as it was. It is usable until then, and the
/// proof that it was renewed from is refused with a conflict.
pub proof fn renewal_supersedes_claim(
    before: AiProviderBackgroundSubmissionRecord,
    claim: AiOpenAiBackgroundReconciliationClaim,
    now: UtcTime,
    lease_ttl: Duration,
    after: AiProviderBackgroundSubmissionRecord,
    row_version: i64,
    renewed: ClaimDetails,
    later: UtcTime,
)
    requires
        claim.wf(),
        now.wf(),
        later.wf(),
        heartbeat_fault(Some(before), claim@, now, lease_ttl) is None,
        renewed_row(
            before,
            after,
            lease_end(now, lease_ttl, claim@.reconciliation_deadline.second()),
        ),
        row_version != before.row_version,
        renewed == (ClaimDetails {
            reconciliation_lease_expires_at: UtcTime::at(
                after.reconciliation_lease_expires_at->0 as int,
            ),
            row_version,
            ..claim@
        }),
    ensures
        ({
            let expiry = lease_end(now, lease_ttl, claim@.reconciliation_deadline.second());
            let row = stored(after, row_version);
            &&& renewed.reconciliation_lease_expires_at.second() == expiry
            &&& expiry <= claim@.reconciliation_deadline.second()
            &&& renewed.reconciliation_deadline == claim@.reconciliation_deadline
            &&& renewed.reconciliation_generation == claim@.reconciliation_generation
            &&& renewed.worker_id == claim@.worker_id
            &&& renewed.retry_count == claim@.retry_count
            &&& row.reconciliation_next_attempt_at is Some
            &&& row.reconciliation_next_attempt_at->0 == expiry
            &&& claim_use_fault(row, claim@, later) == Some(OrmErrorCode::Conflict)
            &&& later.second() < expiry ==> claim_use_fault(row, renewed, later) is None
        }),
{
    let row = stored(after, row_version);
    assert(row.provider_response_id == before.provider_response_id);
}

/// A newer claim fences every older one: once another generation was given
/// out, no operation accepts the older claim.
pub proof fn older_claims_are_fenced(
    before: AiProviderBackgroundSubmissionRecord,
    after: AiProviderBackgroundSubmissionRecord,
    row_version: i64,
    worker_id: Seq<char>,
    expiry: int,
    old_claim: ClaimDetails,
    now: UtcTime,
)
    requires
        claimed_row(before, after, worker_id, expiry),
        old_claim.reconciliation_generation <= before.reconciliation_generation,
    ensures
        claim_use_fault(stored(after, row_version), old_claim, now) == Some(OrmErrorCode::Conflict),
{
}

/// A claim that its worker abandons is not lost: once its lease has run out
/// the row can be claimed again, and once its deadline has passed it can be
/// closed.
pub proof fn abandoned_claim_can_be_reclaimed(
    before: AiProviderBackgroundSubmissionRecord,
    after: AiProviderBackgroundSubmissionRecord,
    row_version: i64,
    worker_id: Seq<char>,
    second: int,
    expiry: int,
    later: int,
    maximum_retries: nat,
    owner_valid: bool,
)
    requires
        claimable(before, second, maximum_retries, owner_valid),
        claimed_row(before, after, worker_id, expiry),
        second < expiry <= before.reconciliation_deadline->0,
        row_version >= 1,
        expiry <= later,
    ensures
        later < before.reconciliation_deadline->0 ==> claimable(
            stored(after, row_version),
            later,
            maximum_retries,
            true,
        ),
        before.reconciliation_deadline->0 <= later ==> expired(
            stored(after, row_version),
            later,
            maximum_retries,
            true,
        ),
{
    submission_state_round_trip(BackgroundSubmissionState::Reconciling, after.state@);
}

/// A claim is usable exactly while the row is the one that it was given for, in
/// every immutable column, held by its worker under its generation and row
/// version, with the retrieval that it carries, unsettled, and before both its
/// lease and its deadline ended.
pub proof fn claims_are_usable_while_they_hold(
    row: AiProviderBackgroundSubmissionRecord,
    claim: ClaimDetails,
    now: UtcTime,
)
    requires
        now.wf(),
        claim.reconciliation_lease_expires_at.wf(),
        claim.reconciliation_deadline.wf(),
    ensures
        claim_use_fault(row, claim, now) is None <==> {
            &&& row.id == claim.submission_id
            &&& row.submission_key@ == claim.submission_key@
            &&& row.session_id == claim.session_id
            &&& row.run_id == claim.run_id
            &&& row.attempt_id == claim.attempt_id
            &&& row.lease_generation == claim.original_lease_generation
            &&& row.provider_profile_id@ == claim.provider_profile_id@
            &&& row.provider_model@ == claim.provider_model@
            &&& row.maximum_output_tokens == claim.maximum_output_tokens
            &&& row.provider_store is Some && row.provider_store->0 == claim.provider_store
            &&& row.provider_response_id is Some && row.provider_response_id->0@
                == claim.provider_response_id@
            &&& row.provider_created_at is Some && row.provider_created_at->0
                == claim.provider_created_at
            &&& row.request_hash@ == claim.request_hash@
            &&& row.budget_reservation_id == claim.budget_reservation_id
            &&& row.egress_decision_id == claim.original_egress_decision_id
            &&& row.egress_manifest_hash@ == claim.original_egress_manifest_hash@
            &&& row.retrieval_egress_decision_id == claim.retrieval_egress_decision_id
            &&& row.state@ == "reconciling"@
            &&& row.reconciliation_owner is Some && row.reconciliation_owner->0@
                == claim.worker_id@
            &&& row.reconciliation_generation == claim.reconciliation_generation
            &&& row.reconciliation_retry_count == claim.retry_count
            &&& row.row_version == claim.row_version
            &&& row.reconciliation_lease_expires_at is Some
                && row.reconciliation_lease_expires_at->0
                == claim.reconciliation_lease_expires_at.second()
            &&& row.reconciliation_next_attempt_at == row.reconciliation_lease_expires_at
            &&& row.reconciliation_deadline is Some && row.reconciliation_deadline->0
                == claim.reconciliation_deadline.second()
            &&& row.reconciliation_lease_expires_at->0 <= row.reconciliation_deadline->0
            &&& now.second() < claim.reconciliation_lease_expires_at.second()
            &&& now.nanos < claim.reconciliation_deadline.nanos
            &&& row.safe_error_code is None && row.reconciled_at is None
            &&& row.terminal_message_id is None
        },
{
}

/// Nothing but a claim that does not fit its row is a conflict.
pub proof fn foreign_claims_conflict(
    row: AiProviderBackgroundSubmissionRecord,
    claim: ClaimDetails,
    now: UtcTime,
)
    requires
        row.id != claim.submission_id || row.reconciliation_generation
            != claim.reconciliation_generation || row.row_version != claim.row_version
            || row.reconciliation_owner is None || row.reconciliation_owner->0@
            != claim.worker_id@ || row.retrieval_egress_decision_id
            != claim.retrieval_egress_decision_id || claim.reconciliation_deadline.nanos
            <= now.nanos || claim.reconciliation_lease_expires_at.nanos <= now.nanos,
    ensures
        claim_use_fault(row, claim, now) == Some(OrmErrorCode::Conflict),
{
}

/// A claim gives the row to one worker for one lease: under the next
/// generation, until the lease or the deadline ends, with no retrieval yet, and
/// with every other column as it was.
pub proof fn claiming_gives_the_row_to_one_worker(
    before: AiProviderBackgroundSubmissionRecord,
    after: AiProviderBackgroundSubmissionRecord,
    worker_id: Seq<char>,
    now: UtcTime,
    lease_ttl: Duration,
)
    requires
        claimed_row(
            before,
            after,
            worker_id,
            lease_end(now, lease_ttl, before.reconciliation_deadline->0 as int),
        ),
        (UtcTime { nanos: (now.nanos + lease_ttl.nanos) as i128 }).wf(),
        now.wf(),
        0 <= lease_ttl.nanos,
        lease_ttl.wf(),
    ensures
        after.state@ == "reconciling"@,
        after.reconciliation_owner is Some && after.reconciliation_owner->0@ == worker_id,
        after.reconciliation_generation == before.reconciliation_generation + 1,
        after.reconciliation_lease_expires_at is Some,
        after.reconciliation_next_attempt_at == after.reconciliation_lease_expires_at,
        after.reconciliation_lease_expires_at->0 <= before.reconciliation_deadline->0,
        after.reconciliation_lease_expires_at->0 * 1_000_000_000 <= now.nanos + lease_ttl.nanos,
        after.reconciliation_lease_expires_at->0 == before.reconciliation_deadline->0 || (
        after.reconciliation_lease_expires_at->0 + 1) * 1_000_000_000 > now.nanos
            + lease_ttl.nanos,
        after.retrieval_egress_decision_id is None,
        after.id == before.id && after.submission_key == before.submission_key,
        after.session_id == before.session_id && after.run_id == before.run_id,
        after.attempt_id == before.attempt_id,
        after.lease_generation == before.lease_generation,
        after.provider_response_id == before.provider_response_id,
        after.provider_status == before.provider_status,
        after.request_hash == before.request_hash,
        after.budget_reservation_id == before.budget_reservation_id,
        after.egress_decision_id == before.egress_decision_id,
        after.reconciliation_retry_count == before.reconciliation_retry_count,
        after.reconciliation_deadline == before.reconciliation_deadline,
        after.safe_error_code == before.safe_error_code,
        after.reconciled_at == before.reconciled_at,
        after.terminal_message_id == before.terminal_message_id,
        after.row_version == before.row_version,
{
}

/// A candidate is claimed exactly where it may be claimed now, the rows around
/// it can be used, a further generation exists, and its lease can be dated.
pub proof fn candidates_are_claimed_where_due(
    current: AiProviderBackgroundSubmissionRecord,
    snapshot: ClaimGraphSnapshot,
    now: UtcTime,
    bounds: ReconciliationBounds,
    owner_valid: bool,
)
    ensures
        claim_fault(current, snapshot, now, bounds, owner_valid) is None <==> claimable(
            current,
            now.second(),
            bounds.retries,
            owner_valid,
        ) && graph_fault(snapshot, current) is None && current.reconciliation_generation
            < i64::MAX && (UtcTime { nanos: (now.nanos + bounds.lease_ttl.nanos) as i128 }).wf(),
{
}

/// A claim is renewed exactly while it is usable and has no retrieval, and the
/// renewal moves the end of the lease and nothing else.
pub proof fn renewal_moves_the_lease_alone(
    current: AiProviderBackgroundSubmissionRecord,
    claim: ClaimDetails,
    now: UtcTime,
    lease_ttl: Duration,
    after: AiProviderBackgroundSubmissionRecord,
    expiry: int,
)
    ensures
        heartbeat_fault(Some(current), claim, now, lease_ttl) is None <==> claim_use_fault(
            current,
            claim,
            now,
        ) is None && current.retrieval_egress_decision_id is None && (UtcTime {
            nanos: (now.nanos + lease_ttl.nanos) as i128,
        }).wf(),
        renewed_row(current, after, expiry) ==> {
            &&& after.reconciliation_lease_expires_at is Some
                && after.reconciliation_lease_expires_at->0 == expiry
            &&& after.reconciliation_next_attempt_at == after.reconciliation_lease_expires_at
            &&& after.state == current.state
            &&& after.reconciliation_owner == current.reconciliation_owner
            &&& after.reconciliation_generation == current.reconciliation_generation
            &&& after.reconciliation_retry_count == current.reconciliation_retry_count
            &&& after.reconciliation_deadline == current.reconciliation_deadline
            &&& after.retrieval_egress_decision_id == current.retrieval_egress_decision_id
            &&& after.provider_response_id == current.provider_response_id
            &&& after.terminal_message_id == current.terminal_message_id
            &&& after.reconciled_at == current.reconciled_at
        },
{
}

/// What a claim says is what its row and the rows around it say.
pub proof fn claims_say_what_their_rows_say(
    claim: ClaimDetails,
    row: AiProviderBackgroundSubmissionRecord,
    graph: BackgroundClaimGraph,
    matched_receipt: Option<MatchedBackgroundReceipt>,
)
    requires
        claim_readable(row),
        claim_reads(claim, row, graph, matched_receipt),
    ensures
        claim.submission_id == row.id,
        claim.session_id == row.session_id,
        claim.run_id == row.run_id,
        claim.attempt_id == row.attempt_id,
        claim.original_lease_generation == row.lease_generation,
        claim.principal_reference@ == graph.principal_reference@,
        claim.worker_id@ == row.reconciliation_owner->0@,
        claim.reconciliation_generation == row.reconciliation_generation,
        claim.reconciliation_lease_expires_at.second() == row.reconciliation_lease_expires_at->0,
        claim.reconciliation_deadline.second() == row.reconciliation_deadline->0,
        claim.row_version == row.row_version,
        claim.retry_count == row.reconciliation_retry_count,
        claim.provider_profile_id@ == row.provider_profile_id@,
        claim.provider_model@ == row.provider_model@,
        claim.maximum_output_tokens == row.maximum_output_tokens,
        claim.provider_response_id@ == row.provider_response_id->0@,
        claim.budget_reservation_id == row.budget_reservation_id,
        claim.original_egress_decision_id == row.egress_decision_id,
        claim.original_egress_destination@ == graph.original_egress_destination@,
        claim.original_maximum_classification == graph.original_maximum_classification,
        claim.retrieval_egress_decision_id == row.retrieval_egress_decision_id,
        claim.scope.kind@ == graph.scope_kind@,
        claim.scope.id@ == graph.scope_id@,
        text_option(claim.scope.tenant_id) == text_option(graph.tenant_id),
        claim.matched_receipt == matched_receipt,
{
}

/// A claim that is no longer the row's is a conflict; one that the row should
/// carry and does not is a fault of the store; a row that is gone is not found.
pub proof fn claim_faults_say_what_is_wrong(
    current: AiProviderBackgroundSubmissionRecord,
    snapshot: ClaimGraphSnapshot,
    claim: ClaimDetails,
    now: UtcTime,
    bounds: ReconciliationBounds,
    owner_valid: bool,
)
    ensures
        claim_use_fault(current, claim, now) == Some(OrmErrorCode::Conflict) <==> !claim_current(
            current,
            claim,
            now,
        ),
        claim_use_fault(current, claim, now) is Some && claim_current(current, claim, now)
            ==> claim_use_fault(current, claim, now) == Some(OrmErrorCode::InternalError),
        claim_fault(current, snapshot, now, bounds, owner_valid) matches Some(code) ==> code
            == OrmErrorCode::InternalError || Some(code) == graph_fault(snapshot, current),
        heartbeat_fault(None, claim, now, bounds.lease_ttl) == Some(OrmErrorCode::NotFound),
        heartbeat_fault(Some(current), claim, now, bounds.lease_ttl) matches Some(code) ==> code
            == OrmErrorCode::InternalError || Some(code) == claim_use_fault(current, claim, now),
        heartbeat_fault(Some(current), claim, now, bounds.lease_ttl) is None <==> {
            &&& claim_use_fault(current, claim, now) is None
            &&& (UtcTime { nanos: (now.nanos + bounds.lease_ttl.nanos) as i128 }).wf()
            &&& current.retrieval_egress_decision_id is None
        },
{
}

/// A claimed row can be read exactly where it names its holder and its lease,
/// counts its retries, and holds the acknowledged response.
pub proof fn readable_claims_are_complete(submission: AiProviderBackgroundSubmissionRecord)
    ensures
        claim_readable(submission) <==> {
            &&& submission.reconciliation_owner is Some
            &&& submission.reconciliation_lease_expires_at is Some && calendar_second(
                submission.reconciliation_lease_expires_at->0 as int,
            )
            &&& submission.reconciliation_deadline is Some && calendar_second(
                submission.reconciliation_deadline->0 as int,
            )
            &&& submission.reconciliation_retry_count >= 0 && submission.reconciliation_retry_count
                <= u32::MAX
            &&& submission.maximum_output_tokens >= 0
            &&& submission.provider_store is Some && submission.provider_response_id is Some
            &&& submission.provider_created_at is Some
        },
{
}

} // verus!
