//! Giving a claim back, and closing a submission for recovery.
//!
//! A release never touches the parked run or its uncertain budget. Where
//! retries or the deadline are exhausted, the whole graph is closed instead:
//! submission, run, attempt, and matched receipt together.

use crate::access::AiRunState;
use crate::background::claim::{
    AiOpenAiBackgroundReconciliationClaim, ClaimDetails, claim_use_fault, stored,
    validate_current_reconciliation_claim,
};
use crate::background::graph::{
    BackgroundClaimGraph, ClaimGraphSnapshot, acknowledged_and_open, claimable, expired,
    graph_fault, is_run_parked, load_background_claim_graph, run_parked,
    validate_expired_submission,
};
use crate::background::identity::{BackgroundAudit, BackgroundChange, audited, background_audit};
use crate::background::limits::{
    AiOpenAiBackgroundReconciliationLimits, background_retry_delay,
    retry_delay_grows_within_bounds, retry_delay_seconds,
};
use crate::background::receipts::{
    ReceiptCandidate, ReceiptState, ReceiptWrite, close_matched_receipt_recovery,
    receipt_closing_fault, receipt_written,
};
use crate::background::rows::{
    AiProviderBackgroundSubmissionRecord, AiRunAttemptOutcomeRecord, RunSettlement,
    SubmissionWrite,
};
use crate::background::state::{
    BackgroundReason, BackgroundSubmissionState, ProviderBackgroundStatus, background_status_value,
    names_status, reason_text, status_text, submission_state_of, submission_state_round_trip,
    submission_state_text, submission_states_are_spelled_so,
};
use crate::clock::{Duration, NANOS_PER_SECOND, UtcTime};
use crate::error::{
    AiError, ErrorModel, OrmErrorCode, accepted_or, invalid_configuration, invalid_input, outcome,
    refusal,
};
use crate::records::AiRunRecord;
use crate::text::{clone_text_option, option_is_text, same_text, text_option};
use crate::digest::uuid_text;
use vstd::prelude::*;

verus! {

/// Every write that closes a submission for recovery.
#[derive(Debug, PartialEq, Eq)]
pub struct RecoveryPlan {
    pub submission: SubmissionWrite,
    pub run: RunSettlement,
    pub outcome: AiRunAttemptOutcomeRecord,
    pub receipt: Option<ReceiptWrite>,
    pub audit: BackgroundAudit,
}

/// Whether the row is closed for recovery with this reason and held by nobody.
pub open spec fn recovery_closed(
    submission: AiProviderBackgroundSubmissionRecord,
    reason: BackgroundReason,
) -> bool {
    &&& submission.state@ == "recovery_required"@
    &&& text_option(submission.safe_error_code) == Some(reason_text(reason))
    &&& submission.reconciliation_owner is None
    &&& submission.reconciliation_lease_expires_at is None
    &&& submission.reconciliation_next_attempt_at is None
    &&& submission.reconciled_at is None
    &&& submission.terminal_message_id is None
}

/// Accepts exactly the rows that are closed for recovery with this reason.
pub fn confirm_recovery_closed(
    submission: &AiProviderBackgroundSubmissionRecord,
    reason: BackgroundReason,
) -> (result: Result<(), OrmErrorCode>)
    ensures
        result == if recovery_closed(*submission, reason) {
            Ok::<(), OrmErrorCode>(())
        } else {
            Err(OrmErrorCode::InternalError)
        },
{
    if same_text(submission.state.as_str(), "recovery_required") && option_is_text(
        &submission.safe_error_code,
        reason.as_str(),
    ) && submission.reconciliation_owner.is_none()
        && submission.reconciliation_lease_expires_at.is_none()
        && submission.reconciliation_next_attempt_at.is_none() && submission.reconciled_at.is_none()
        && submission.terminal_message_id.is_none() {
        Ok(())
    } else {
        Err(OrmErrorCode::InternalError)
    }
}

/// Whether the outcome ends the submission's attempt in this state with this
/// reason.
pub open spec fn attempt_ended(
    outcome: AiRunAttemptOutcomeRecord,
    submission: AiProviderBackgroundSubmissionRecord,
    worker_id: Seq<char>,
    final_state: Seq<char>,
    reason: BackgroundReason,
    second: int,
) -> bool {
    &&& outcome.attempt_id == submission.attempt_id
    &&& outcome.run_id == submission.run_id
    &&& outcome.lease_generation == submission.lease_generation
    &&& outcome.worker_id@ == worker_id
    &&& outcome.final_state@ == final_state
    &&& outcome.outcome_code@ == reason_text(reason)
    &&& outcome.provider_response_id == submission.provider_response_id
    &&& outcome.finished_at == second
}

/// The worker that a change is audited under: the row's holder, or the service
/// itself.
pub open spec fn acting_worker(submission: AiProviderBackgroundSubmissionRecord) -> Seq<char> {
    match submission.reconciliation_owner {
        Some(owner) => owner@,
        None => "provider-background"@,
    }
}

/// The worker that a change is audited under.
pub fn acting_worker_id(submission: &AiProviderBackgroundSubmissionRecord) -> (worker: String)
    ensures
        worker@ == acting_worker(*submission),
{
    match &submission.reconciliation_owner {
        Some(owner) => owner.clone(),
        None => "provider-background".to_owned(),
    }
}

/// Why a submission cannot be closed, in the order of checks.
pub open spec fn close_fault(
    run: Option<AiRunRecord>,
    submission: AiProviderBackgroundSubmissionRecord,
    matched: Seq<ReceiptCandidate>,
) -> Option<OrmErrorCode> {
    if run is None {
        Some(OrmErrorCode::NotFound)
    } else if !run_parked(run->0, submission) {
        Some(OrmErrorCode::InternalError)
    } else if submission.reconciled_at is Some || submission.terminal_message_id is Some {
        Some(OrmErrorCode::InternalError)
    } else {
        receipt_closing_fault(submission, matched)
    }
}

/// Whether the plan closes exactly this submission, its run, its attempt, and
/// its matched receipt with this reason, and settles no budget.
pub open spec fn closed_for_recovery(
    plan: RecoveryPlan,
    run: AiRunRecord,
    submission: AiProviderBackgroundSubmissionRecord,
    worker_id: Seq<char>,
    matched: Seq<ReceiptCandidate>,
    reason: BackgroundReason,
    second: int,
) -> bool {
    &&& plan.submission.expected_row_version == submission.row_version
    &&& submission_state_text(plan.submission.expected_state) == submission.state@
    &&& recovery_closed(plan.submission.next, reason)
    &&& submission == (AiProviderBackgroundSubmissionRecord {
        state: submission.state,
        safe_error_code: submission.safe_error_code,
        reconciliation_owner: submission.reconciliation_owner,
        reconciliation_lease_expires_at: submission.reconciliation_lease_expires_at,
        reconciliation_next_attempt_at: submission.reconciliation_next_attempt_at,
        ..plan.submission.next
    })
    &&& plan.run == (RunSettlement {
        run_id: run.id,
        expected_row_version: run.row_version,
        expected_state: AiRunState::WaitingProvider,
        state: AiRunState::RecoveryRequired,
        error_code: Some(reason),
        latest_checkpoint_id: None,
    })
    &&& attempt_ended(
        plan.outcome,
        submission,
        worker_id,
        "recovery_required"@,
        reason,
        second,
    )
    &&& match plan.receipt {
        Some(write) => matched.len() == 1 && receipt_written(
            write,
            matched[0].receipt,
            submission,
            ReceiptState::MatchedPending,
            ReceiptState::RecoveryRequired,
            Some(reason),
            Some(second),
        ),
        None => matched.len() == 0,
    }
    &&& audited(
        plan.audit,
        BackgroundChange::CloseRecovery(reason),
        acting_worker(submission),
        submission.id,
        submission.id,
        submission.run_id,
        "provider-background-reconciliation-v1"@,
    )
}

/// Plans the close of a submission whose graph was read in the same
/// transaction. `matched` are the receipts bound to it.
pub fn close_background_recovery(
    run: &Option<AiRunRecord>,
    submission: &AiProviderBackgroundSubmissionRecord,
    attempt_worker_id: &str,
    matched: &Vec<ReceiptCandidate>,
    reason: BackgroundReason,
    now: UtcTime,
) -> (result: Result<RecoveryPlan, OrmErrorCode>)
    requires
        now.wf(),
        submission_state_of(submission.state@) is Some,
    ensures
        match result {
            Err(code) => close_fault(*run, *submission, matched@) == Some(code),
            Ok(plan) => close_fault(*run, *submission, matched@) is None && closed_for_recovery(
                plan,
                run->0,
                *submission,
                attempt_worker_id@,
                matched@,
                reason,
                now.second(),
            ),
        },
{
    let run: &AiRunRecord = match run {
        Some(run) => run,
        None => return Err(OrmErrorCode::NotFound),
    };
    if !is_run_parked(run, submission) {
        return Err(OrmErrorCode::InternalError);
    }
    let expected_state: BackgroundSubmissionState = match BackgroundSubmissionState::from_persisted(
        submission.state.as_str(),
    ) {
        Some(state) => state,
        None => return Err(OrmErrorCode::InternalError),
    };
    proof {
        submission_state_round_trip(expected_state, submission.state@);
    }
    let mut next = submission.clone();
    next.state = BackgroundSubmissionState::RecoveryRequired.as_str().to_owned();
    next.safe_error_code = Some(reason.as_str().to_owned());
    next.reconciliation_owner = None;
    next.reconciliation_lease_expires_at = None;
    next.reconciliation_next_attempt_at = None;
    match confirm_recovery_closed(&next, reason) {
        Ok(()) => {},
        Err(code) => return Err(code),
    }
    let receipt: Option<ReceiptWrite> = match close_matched_receipt_recovery(
        submission,
        matched,
        reason,
        now,
    ) {
        Ok(receipt) => receipt,
        Err(code) => return Err(code),
    };
    let worker = acting_worker_id(submission);
    Ok(
        RecoveryPlan {
            submission: SubmissionWrite {
                expected_row_version: submission.row_version,
                expected_state,
                next,
            },
            run: RunSettlement {
                run_id: run.id,
                expected_row_version: run.row_version,
                expected_state: AiRunState::WaitingProvider,
                state: AiRunState::RecoveryRequired,
                error_code: Some(reason),
                latest_checkpoint_id: None,
            },
            outcome: AiRunAttemptOutcomeRecord {
                attempt_id: submission.attempt_id,
                run_id: submission.run_id,
                lease_generation: submission.lease_generation,
                worker_id: attempt_worker_id.to_owned(),
                final_state: AiRunState::RecoveryRequired.as_str().to_owned(),
                outcome_code: reason.as_str().to_owned(),
                provider_response_id: clone_text_option(&submission.provider_response_id),
                finished_at: now.unix_timestamp(),
            },
            receipt,
            audit: background_audit(
                BackgroundChange::CloseRecovery(reason),
                worker.as_str(),
                submission.id,
                submission.id,
                submission.run_id,
                "provider-background-reconciliation-v1",
            ),
        },
    )
}

/// A closed submission is final: it can be neither claimed nor closed as
/// expired, and no claim on it can be used.
pub proof fn closed_submission_is_final(
    row: AiProviderBackgroundSubmissionRecord,
    reason: BackgroundReason,
    claim: ClaimDetails,
    now: UtcTime,
    second: int,
    maximum_retries: nat,
    owner_valid: bool,
)
    requires
        recovery_closed(row, reason),
    ensures
        !claimable(row, second, maximum_retries, owner_valid),
        !expired(row, second, maximum_retries, owner_valid),
        claim_use_fault(row, claim, now) is Some,
{
}

/// Why a claim is given back.
#[derive(Clone, Copy, Debug, PartialEq, Eq, Structural)]
pub enum ReleaseCause {
    /// The worker gave up before calling the provider.
    BeforeRetrieval,
    /// The provider reported a status that is not terminal.
    Nonterminal(ProviderBackgroundStatus),
    /// The retrieval failed in a way that may be retried.
    Failure(BackgroundReason),
}

/// Whether the cause can end this row's use: a retrieval must have been bound
/// for everything but giving up, and the status must not be terminal.
pub open spec fn cause_applies(
    current: AiProviderBackgroundSubmissionRecord,
    cause: ReleaseCause,
) -> bool {
    match cause {
        ReleaseCause::BeforeRetrieval => true,
        ReleaseCause::Nonterminal(status) => current.retrieval_egress_decision_id is Some
            && !status.terminal(),
        ReleaseCause::Failure(_) => current.retrieval_egress_decision_id is Some,
    }
}

/// The reason for closing instead of releasing, where retries or the deadline
/// are exhausted.
pub open spec fn exhaustion(
    current: AiProviderBackgroundSubmissionRecord,
    deadline: int,
    eligible: int,
    maximum_retries: nat,
) -> Option<BackgroundReason> {
    if current.reconciliation_retry_count + 1 > maximum_retries {
        Some(BackgroundReason::RetryExhausted)
    } else if eligible >= deadline {
        Some(BackgroundReason::DeadlineExhausted)
    } else {
        None
    }
}

/// Whether the row waits, held by nobody, until its next attempt.
pub open spec fn released_row_valid(
    submission: AiProviderBackgroundSubmissionRecord,
    generation: i64,
    retry_count: int,
    eligible: int,
) -> bool {
    &&& submission.state@ == "waiting_provider"@
    &&& submission.reconciliation_owner is None
    &&& submission.reconciliation_generation == generation
    &&& submission.reconciliation_lease_expires_at is None
    &&& submission.reconciliation_next_attempt_at is Some
    &&& submission.reconciliation_next_attempt_at->0 == eligible
    &&& submission.reconciliation_retry_count == retry_count
    &&& submission.reconciliation_deadline is Some
    &&& eligible < submission.reconciliation_deadline->0
    &&& submission.safe_error_code is None
    &&& submission.reconciled_at is None
    &&& submission.retrieval_egress_decision_id is None
    &&& submission.terminal_message_id is None
}

/// Accepts exactly the rows that were released for their next attempt.
pub fn validate_released_reconciliation_record(
    submission: &AiProviderBackgroundSubmissionRecord,
    generation: i64,
    retry_count: i64,
    eligible_at: UtcTime,
) -> (result: Result<(), OrmErrorCode>)
    requires
        eligible_at.wf(),
    ensures
        result == if released_row_valid(
            *submission,
            generation,
            retry_count as int,
            eligible_at.second(),
        ) {
            Ok::<(), OrmErrorCode>(())
        } else {
            Err(OrmErrorCode::InternalError)
        },
{
    let eligible: i64 = eligible_at.unix_timestamp();
    let times_valid: bool = match (
        submission.reconciliation_next_attempt_at,
        submission.reconciliation_deadline,
    ) {
        (Some(next), Some(deadline)) => next == eligible && eligible < deadline,
        _ => false,
    };
    if times_valid && same_text(submission.state.as_str(), "waiting_provider")
        && submission.reconciliation_owner.is_none() && submission.reconciliation_generation
        == generation && submission.reconciliation_lease_expires_at.is_none()
        && submission.reconciliation_retry_count == retry_count
        && submission.safe_error_code.is_none() && submission.reconciled_at.is_none()
        && submission.retrieval_egress_decision_id.is_none()
        && submission.terminal_message_id.is_none() {
        Ok(())
    } else {
        Err(OrmErrorCode::InternalError)
    }
}

/// Every write of a release.
#[derive(Debug, PartialEq, Eq)]
pub struct ReleasePlan {
    pub submission: SubmissionWrite,
    pub audit: BackgroundAudit,
}

/// What giving a claim back comes to.
#[derive(Debug, PartialEq, Eq)]
pub enum ReleaseStep {
    /// The row waits for its next attempt.
    Release(ReleasePlan),
    /// The submission is closed for recovery.
    Close(RecoveryPlan),
}

/// Rows that giving a claim back reads. The graph and the receipts are read
/// only where the submission is closed.
#[derive(Debug, PartialEq, Eq)]
pub struct ReleaseSnapshot {
    pub current: Option<AiProviderBackgroundSubmissionRecord>,
    pub graph: ClaimGraphSnapshot,
    pub matched: Vec<ReceiptCandidate>,
}

/// Why closing after a failed check of the graph fails.
pub open spec fn closing_fault(
    snapshot: ReleaseSnapshot,
    current: AiProviderBackgroundSubmissionRecord,
) -> Option<OrmErrorCode> {
    if graph_fault(snapshot.graph, current) is Some {
        graph_fault(snapshot.graph, current)
    } else {
        close_fault(snapshot.graph.run, current, snapshot.matched@)
    }
}

/// Why a claim cannot be given back, in the order of checks.
pub open spec fn release_fault(
    snapshot: ReleaseSnapshot,
    claim: ClaimDetails,
    cause: ReleaseCause,
    now: UtcTime,
    eligible_at: UtcTime,
    maximum_retries: nat,
) -> Option<OrmErrorCode> {
    let current = snapshot.current->0;
    if snapshot.current is None {
        Some(OrmErrorCode::NotFound)
    } else if claim_use_fault(current, claim, now) is Some {
        claim_use_fault(current, claim, now)
    } else if !cause_applies(current, cause) {
        Some(OrmErrorCode::Conflict)
    } else if exhaustion(
        current,
        claim.reconciliation_deadline.second(),
        eligible_at.second(),
        maximum_retries,
    ) is Some {
        closing_fault(snapshot, current)
    } else if cause is BeforeRetrieval && current.retrieval_egress_decision_id is Some {
        Some(OrmErrorCode::InternalError)
    } else {
        None
    }
}

/// The change that a release is audited as.
pub open spec fn release_change(cause: ReleaseCause) -> BackgroundChange {
    match cause {
        ReleaseCause::BeforeRetrieval => BackgroundChange::ReleaseBeforeRetrieval,
        ReleaseCause::Nonterminal(_) => BackgroundChange::ReleaseNonterminal,
        ReleaseCause::Failure(reason) => BackgroundChange::ReleaseAfterFailure(reason),
    }
}

/// Whether the row is `before` given back for its next attempt.
pub open spec fn released_row(
    before: AiProviderBackgroundSubmissionRecord,
    after: AiProviderBackgroundSubmissionRecord,
    cause: ReleaseCause,
    eligible: int,
) -> bool {
    &&& released_row_valid(
        after,
        before.reconciliation_generation,
        before.reconciliation_retry_count + 1,
        eligible,
    )
    &&& match cause {
        ReleaseCause::Nonterminal(status) => text_option(after.provider_status) == Some(
            status_text(status),
        ),
        _ => after.provider_status == before.provider_status,
    }
    &&& before == (AiProviderBackgroundSubmissionRecord {
        state: before.state,
        provider_status: before.provider_status,
        reconciliation_owner: before.reconciliation_owner,
        reconciliation_lease_expires_at: before.reconciliation_lease_expires_at,
        reconciliation_next_attempt_at: before.reconciliation_next_attempt_at,
        reconciliation_retry_count: before.reconciliation_retry_count,
        retrieval_egress_decision_id: before.retrieval_egress_decision_id,
        ..after
    })
}

/// Whether the step releases or closes exactly as it must.
pub open spec fn release_decided(
    step: ReleaseStep,
    snapshot: ReleaseSnapshot,
    claim: ClaimDetails,
    cause: ReleaseCause,
    now: UtcTime,
    eligible_at: UtcTime,
    maximum_retries: nat,
) -> bool {
    let current = snapshot.current->0;
    let exhausted = exhaustion(
        current,
        claim.reconciliation_deadline.second(),
        eligible_at.second(),
        maximum_retries,
    );
    match step {
        ReleaseStep::Release(plan) => {
            &&& exhausted is None
            &&& plan.submission.expected_row_version == current.row_version
            &&& plan.submission.expected_state is Reconciling
            &&& released_row(current, plan.submission.next, cause, eligible_at.second())
            &&& audited(
                plan.audit,
                release_change(cause),
                claim.worker_id@,
                current.id,
                current.id,
                current.run_id,
                "provider-background-reconciliation-v1"@,
            )
        },
        ReleaseStep::Close(plan) => {
            &&& exhausted is Some
            &&& closed_for_recovery(
                plan,
                snapshot.graph.run->0,
                current,
                snapshot.graph.attempts@[0].worker_id@,
                snapshot.matched@,
                exhausted->0,
                now.second(),
            )
        },
    }
}

/// Gives a claim back for a later attempt, or closes its submission where
/// retries or the deadline are exhausted.
#[verifier::rlimit(30)]
pub fn release_claim(
    snapshot: &ReleaseSnapshot,
    claim: &AiOpenAiBackgroundReconciliationClaim,
    cause: ReleaseCause,
    now: UtcTime,
    eligible_at: UtcTime,
    maximum_retries: u32,
) -> (result: Result<ReleaseStep, OrmErrorCode>)
    requires
        claim.wf(),
        now.wf(),
        eligible_at.wf(),
    ensures
        match result {
            Err(code) => release_fault(
                *snapshot,
                claim@,
                cause,
                now,
                eligible_at,
                maximum_retries as nat,
            ) == Some(code),
            Ok(step) => release_fault(
                *snapshot,
                claim@,
                cause,
                now,
                eligible_at,
                maximum_retries as nat,
            ) is None && release_decided(
                step,
                *snapshot,
                claim@,
                cause,
                now,
                eligible_at,
                maximum_retries as nat,
            ),
        },
{
    let current: &AiProviderBackgroundSubmissionRecord = match &snapshot.current {
        Some(current) => current,
        None => return Err(OrmErrorCode::NotFound),
    };
    match validate_current_reconciliation_claim(current, claim, now) {
        Ok(()) => {},
        Err(code) => return Err(code),
    }
    let applies: bool = match cause {
        ReleaseCause::BeforeRetrieval => true,
        ReleaseCause::Nonterminal(status) => current.retrieval_egress_decision_id.is_some()
            && !status.is_terminal(),
        ReleaseCause::Failure(_) => current.retrieval_egress_decision_id.is_some(),
    };
    if !applies {
        return Err(OrmErrorCode::Conflict);
    }
    let details = claim.details();
    let retry_count: i64 = match current.reconciliation_retry_count.checked_add(1) {
        Some(count) => count,
        None => return Err(OrmErrorCode::Conflict),
    };
    let retry_exhausted: bool = retry_count < 0 || retry_count > maximum_retries as i64;
    let eligible: i64 = eligible_at.unix_timestamp();
    let deadline_exhausted: bool = eligible >= details.reconciliation_deadline.unix_timestamp();
    if retry_exhausted || deadline_exhausted {
        let reason: BackgroundReason = if retry_exhausted {
            BackgroundReason::RetryExhausted
        } else {
            BackgroundReason::DeadlineExhausted
        };
        return match close_claimed(snapshot, current, reason, now) {
            Ok(plan) => Ok(ReleaseStep::Close(plan)),
            Err(code) => Err(code),
        };
    }
    let mut next = current.clone();
    next.state = BackgroundSubmissionState::WaitingProvider.as_str().to_owned();
    next.reconciliation_owner = None;
    next.reconciliation_lease_expires_at = None;
    next.reconciliation_next_attempt_at = Some(eligible);
    next.reconciliation_retry_count = retry_count;
    let change: BackgroundChange = match cause {
        ReleaseCause::BeforeRetrieval => BackgroundChange::ReleaseBeforeRetrieval,
        ReleaseCause::Nonterminal(status) => {
            next.provider_status = Some(background_status_value(status).to_owned());
            next.retrieval_egress_decision_id = None;
            BackgroundChange::ReleaseNonterminal
        },
        ReleaseCause::Failure(reason) => {
            next.retrieval_egress_decision_id = None;
            BackgroundChange::ReleaseAfterFailure(reason)
        },
    };
    match validate_released_reconciliation_record(
        &next,
        details.reconciliation_generation,
        retry_count,
        eligible_at,
    ) {
        Ok(()) => {},
        Err(code) => return Err(code),
    }
    let audit = background_audit(
        change,
        details.worker_id.as_str(),
        current.id,
        current.id,
        current.run_id,
        "provider-background-reconciliation-v1",
    );
    Ok(
        ReleaseStep::Release(
            ReleasePlan {
                submission: SubmissionWrite {
                    expected_row_version: current.row_version,
                    expected_state: BackgroundSubmissionState::Reconciling,
                    next,
                },
                audit,
            },
        ),
    )
}

/// Closes a submission that is being reconciled.
fn close_claimed(
    snapshot: &ReleaseSnapshot,
    current: &AiProviderBackgroundSubmissionRecord,
    reason: BackgroundReason,
    now: UtcTime,
) -> (result: Result<RecoveryPlan, OrmErrorCode>)
    requires
        now.wf(),
        current.state@ == "reconciling"@,
    ensures
        match result {
            Err(code) => closing_fault(*snapshot, *current) == Some(code),
            Ok(plan) => closing_fault(*snapshot, *current) is None && closed_for_recovery(
                plan,
                snapshot.graph.run->0,
                *current,
                snapshot.graph.attempts@[0].worker_id@,
                snapshot.matched@,
                reason,
                now.second(),
            ),
        },
{
    let graph: BackgroundClaimGraph = match load_background_claim_graph(&snapshot.graph, current) {
        Ok(graph) => graph,
        Err(code) => return Err(code),
    };
    proof {
        submission_state_round_trip(BackgroundSubmissionState::Reconciling, current.state@);
    }
    close_background_recovery(
        &snapshot.graph.run,
        current,
        graph.attempt_worker_id.as_str(),
        &snapshot.matched,
        reason,
        now,
    )
}

/// A released row is not lost: it can be claimed from its next attempt until
/// its deadline, and closed afterwards.
pub proof fn released_claim_can_be_reclaimed(
    before: AiProviderBackgroundSubmissionRecord,
    after: AiProviderBackgroundSubmissionRecord,
    row_version: i64,
    cause: ReleaseCause,
    eligible: int,
    later: int,
    maximum_retries: nat,
    owner_valid: bool,
)
    requires
        acknowledged_and_open(before, maximum_retries),
        before.reconciliation_generation > before.reconciliation_retry_count,
        released_row(before, after, cause, eligible),
        before.reconciliation_retry_count + 1 <= maximum_retries,
        before.submitted_at->0 <= eligible <= later,
        row_version >= 1,
    ensures
        later < before.reconciliation_deadline->0 ==> claimable(
            stored(after, row_version),
            later,
            maximum_retries,
            owner_valid,
        ),
        before.reconciliation_deadline->0 <= later ==> expired(
            stored(after, row_version),
            later,
            maximum_retries,
            owner_valid,
        ),
{
    submission_state_round_trip(BackgroundSubmissionState::WaitingProvider, after.state@);
    match cause {
        ReleaseCause::Nonterminal(status) => {
            assert(names_status(status_text(status)));
        },
        _ => {},
    }
    assert(acknowledged_and_open(stored(after, row_version), maximum_retries));
}

/// A released or closed claim is spent: no operation accepts it again.
pub proof fn released_claim_is_spent(
    before: AiProviderBackgroundSubmissionRecord,
    after: AiProviderBackgroundSubmissionRecord,
    row_version: i64,
    cause: ReleaseCause,
    eligible: int,
    claim: ClaimDetails,
    now: UtcTime,
)
    requires
        released_row(before, after, cause, eligible),
    ensures
        claim_use_fault(stored(after, row_version), claim, now) == Some(OrmErrorCode::Conflict),
{
}

/// The instant of the next attempt after a delay the caller chose.
pub fn chosen_eligibility(
    delay: Duration,
    now: UtcTime,
    limits: AiOpenAiBackgroundReconciliationLimits,
) -> (result: Result<UtcTime, AiError>)
    requires
        now.wf(),
        limits.wf(),
    ensures
        ({
            let eligible = UtcTime { nanos: (now.nanos + delay.nanos) as i128 };
            &&& refusal(result) == if delay.nanos < NANOS_PER_SECOND || delay.nanos
                > limits@.retry_delay.nanos {
                Some(
                    ErrorModel::InvalidInput("invalid OpenAI background reconciliation delay"@),
                )
            } else if !eligible.wf() {
                Some(
                    ErrorModel::InvalidConfiguration(
                        "background reconciliation retry time overflow"@,
                    ),
                )
            } else {
                None
            }
            &&& result matches Ok(at) ==> at == eligible && at.wf()
        }),
{
    if delay.nanos < NANOS_PER_SECOND || delay.nanos > limits.maximum_retry_delay().nanos {
        return Err(invalid_input("invalid OpenAI background reconciliation delay"));
    }
    match now.checked_add(delay) {
        Some(eligible) => Ok(eligible),
        None => Err(invalid_configuration("background reconciliation retry time overflow")),
    }
}

/// The instant of the next attempt after the deterministic backoff.
pub fn backoff_eligibility(
    retry_count: u32,
    now: UtcTime,
    limits: AiOpenAiBackgroundReconciliationLimits,
) -> (result: Result<UtcTime, AiError>)
    requires
        now.wf(),
        limits.wf(),
    ensures
        ({
            let eligible = UtcTime {
                nanos: (now.nanos + retry_delay_seconds(retry_count, limits@.retry_delay)
                    * NANOS_PER_SECOND) as i128,
            };
            &&& refusal(result) == if eligible.wf() {
                None
            } else {
                Some(
                    ErrorModel::InvalidConfiguration(
                        "background reconciliation retry time overflow"@,
                    ),
                )
            }
            &&& result matches Ok(at) ==> at == eligible && at.wf()
        }),
{
    proof {
        retry_delay_grows_within_bounds(
            retry_count,
            retry_count,
            limits@.retry_delay,
        );
    }
    let delay: Duration = match background_retry_delay(retry_count, limits.maximum_retry_delay()) {
        Ok(delay) => delay,
        Err(error) => return Err(error),
    };
    match now.checked_add(delay) {
        Some(eligible) => Ok(eligible),
        None => Err(invalid_configuration("background reconciliation retry time overflow")),
    }
}

/// Accepts an observation for release: only a status that is not terminal.
pub fn require_nonterminal(status: ProviderBackgroundStatus) -> (result: Result<(), AiError>)
    ensures
        outcome(result) == accepted_or(
            !status.terminal(),
            ErrorModel::InvalidInput("terminal background observations cannot be released"@),
        ),
{
    if status.is_terminal() {
        Err(invalid_input("terminal background observations cannot be released"))
    } else {
        Ok(())
    }
}

/// Why a retrieval failure that requires recovery cannot be handled.
pub open spec fn failure_close_fault(
    snapshot: ReleaseSnapshot,
    claim: ClaimDetails,
    now: UtcTime,
) -> Option<OrmErrorCode> {
    let current = snapshot.current->0;
    if snapshot.current is None {
        Some(OrmErrorCode::NotFound)
    } else if claim_use_fault(current, claim, now) is Some {
        claim_use_fault(current, claim, now)
    } else if current.retrieval_egress_decision_id is None {
        Some(OrmErrorCode::Conflict)
    } else {
        closing_fault(snapshot, current)
    }
}

/// Closes a submission whose retrieval failed in a way that must not be
/// repeated.
pub fn close_failed_retrieval(
    snapshot: &ReleaseSnapshot,
    claim: &AiOpenAiBackgroundReconciliationClaim,
    reason: BackgroundReason,
    now: UtcTime,
) -> (result: Result<RecoveryPlan, OrmErrorCode>)
    requires
        claim.wf(),
        now.wf(),
    ensures
        match result {
            Err(code) => failure_close_fault(*snapshot, claim@, now) == Some(code),
            Ok(plan) => failure_close_fault(*snapshot, claim@, now) is None && closed_for_recovery(
                plan,
                snapshot.graph.run->0,
                snapshot.current->0,
                snapshot.graph.attempts@[0].worker_id@,
                snapshot.matched@,
                reason,
                now.second(),
            ),
        },
{
    let current: &AiProviderBackgroundSubmissionRecord = match &snapshot.current {
        Some(current) => current,
        None => return Err(OrmErrorCode::NotFound),
    };
    match validate_current_reconciliation_claim(current, claim, now) {
        Ok(()) => {},
        Err(code) => return Err(code),
    }
    if current.retrieval_egress_decision_id.is_none() {
        return Err(OrmErrorCode::Conflict);
    }
    close_claimed(snapshot, current, reason, now)
}

/// One expired candidate with the rows around it.
#[derive(Debug, PartialEq, Eq)]
pub struct ExpiredCandidate {
    pub submission: AiProviderBackgroundSubmissionRecord,
    /// Whether the holder's identity is well formed.
    pub owner_valid: bool,
    pub graph: ClaimGraphSnapshot,
    pub matched: Vec<ReceiptCandidate>,
}

/// Why one expired candidate cannot be closed.
pub open spec fn expiry_fault(
    candidate: ExpiredCandidate,
    second: int,
    maximum_retries: nat,
) -> Option<OrmErrorCode> {
    if !expired(candidate.submission, second, maximum_retries, candidate.owner_valid) {
        Some(OrmErrorCode::InternalError)
    } else if graph_fault(candidate.graph, candidate.submission) is Some {
        graph_fault(candidate.graph, candidate.submission)
    } else {
        close_fault(candidate.graph.run, candidate.submission, candidate.matched@)
    }
}

/// The failure of the first of the first `count` candidates that fails.
pub open spec fn first_expiry_fault(
    candidates: Seq<ExpiredCandidate>,
    second: int,
    maximum_retries: nat,
    count: nat,
) -> Option<OrmErrorCode>
    decreases count,
{
    if count == 0 {
        None
    } else {
        let earlier = first_expiry_fault(candidates, second, maximum_retries, (count - 1) as nat);
        if earlier is Some {
            earlier
        } else {
            expiry_fault(candidates[count - 1], second, maximum_retries)
        }
    }
}

proof fn lemma_first_expiry_fault_stays(
    candidates: Seq<ExpiredCandidate>,
    second: int,
    maximum_retries: nat,
    count: nat,
    total: nat,
)
    requires
        count <= total,
        first_expiry_fault(candidates, second, maximum_retries, count) is Some,
    ensures
        first_expiry_fault(candidates, second, maximum_retries, total) == first_expiry_fault(
            candidates,
            second,
            maximum_retries,
            count,
        ),
    decreases total - count,
{
    if count < total {
        lemma_first_expiry_fault_stays(
            candidates,
            second,
            maximum_retries,
            count,
            (total - 1) as nat,
        );
    }
}

/// Whether the plan closes this expired candidate.
pub open spec fn expiry_closed(
    plan: RecoveryPlan,
    candidate: ExpiredCandidate,
    second: int,
) -> bool {
    closed_for_recovery(
        plan,
        candidate.graph.run->0,
        candidate.submission,
        candidate.graph.attempts@[0].worker_id@,
        candidate.matched@,
        BackgroundReason::DeadlineExpired,
        second,
    )
}

/// Plans the close of a batch whose deadline has passed: all of it, or nothing
/// where one candidate fails. The batch's size is the number that is closed.
pub fn close_expired_once(
    candidates: &Vec<ExpiredCandidate>,
    now: UtcTime,
    maximum_retries: u32,
) -> (result: Result<Vec<RecoveryPlan>, OrmErrorCode>)
    requires
        now.wf(),
    ensures
        match result {
            Err(code) => first_expiry_fault(
                candidates@,
                now.second(),
                maximum_retries as nat,
                candidates@.len(),
            ) == Some(code),
            Ok(plans) => {
                &&& first_expiry_fault(
                    candidates@,
                    now.second(),
                    maximum_retries as nat,
                    candidates@.len(),
                ) is None
                &&& plans@.len() == candidates@.len()
                &&& forall|i: int|
                    0 <= i < candidates@.len() ==> expiry_closed(
                        #[trigger] plans@[i],
                        candidates@[i],
                        now.second(),
                    )
            },
        },
{
    let mut plans: Vec<RecoveryPlan> = Vec::new();
    let mut i: usize = 0;
    while i < candidates.len()
        invariant
            now.wf(),
            i <= candidates@.len(),
            plans@.len() == i,
            first_expiry_fault(
                candidates@,
                now.second(),
                maximum_retries as nat,
                i as nat,
            ) is None,
            forall|k: int|
                0 <= k < i ==> expiry_closed(
                    #[trigger] plans@[k],
                    candidates@[k],
                    now.second(),
                ),
        decreases candidates@.len() - i,
    {
        let candidate = &candidates[i];
        let result = close_expired_candidate(candidate, now, maximum_retries);
        match result {
            Ok(plan) => {
                plans.push(plan);
            },
            Err(code) => {
                proof {
                    lemma_first_expiry_fault_stays(
                        candidates@,
                        now.second(),
                        maximum_retries as nat,
                        (i + 1) as nat,
                        candidates@.len(),
                    );
                }
                return Err(code);
            },
        }
        i += 1;
    }
    Ok(plans)
}

/// Plans the close of one candidate whose deadline has passed.
fn close_expired_candidate(
    candidate: &ExpiredCandidate,
    now: UtcTime,
    maximum_retries: u32,
) -> (result: Result<RecoveryPlan, OrmErrorCode>)
    requires
        now.wf(),
    ensures
        match result {
            Err(code) => expiry_fault(*candidate, now.second(), maximum_retries as nat) == Some(
                code,
            ),
            Ok(plan) => expiry_fault(*candidate, now.second(), maximum_retries as nat) is None
                && expiry_closed(plan, *candidate, now.second()),
        },
{
    match validate_expired_submission(
        &candidate.submission,
        now,
        maximum_retries,
        candidate.owner_valid,
    ) {
        Ok(()) => {},
        Err(code) => return Err(code),
    }
    let graph: BackgroundClaimGraph = match load_background_claim_graph(
        &candidate.graph,
        &candidate.submission,
    ) {
        Ok(graph) => graph,
        Err(code) => return Err(code),
    };
    close_background_recovery(
        &candidate.graph.run,
        &candidate.submission,
        graph.attempt_worker_id.as_str(),
        &candidate.matched,
        BackgroundReason::DeadlineExpired,
        now,
    )
}

/// A submission closed for recovery stops there: it is held by nobody, has no
/// next attempt, keeps the reason, and is neither reconciled nor answered.
pub proof fn closed_rows_stop_there(
    row: AiProviderBackgroundSubmissionRecord,
    reason: BackgroundReason,
)
    ensures
        recovery_closed(row, reason) <==> {
            &&& row.state@ == "recovery_required"@
            &&& row.safe_error_code is Some && row.safe_error_code->0@ == reason_text(reason)
            &&& row.reconciliation_owner is None
            &&& row.reconciliation_lease_expires_at is None
            &&& row.reconciliation_next_attempt_at is None
            &&& row.reconciled_at is None
            &&& row.terminal_message_id is None
        },
{
}

/// Closing ends all that hangs on the submission together: row, run, attempt,
/// and matched receipt end under one reason, each under its own version; what
/// the provider was asked and answered is kept, and nothing is settled.
pub proof fn closing_ends_the_whole_submission(
    plan: RecoveryPlan,
    run: AiRunRecord,
    submission: AiProviderBackgroundSubmissionRecord,
    worker_id: Seq<char>,
    matched: Seq<ReceiptCandidate>,
    reason: BackgroundReason,
    second: int,
)
    requires
        closed_for_recovery(plan, run, submission, worker_id, matched, reason, second),
    ensures
        plan.submission.expected_row_version == submission.row_version,
        submission_state_text(plan.submission.expected_state) == submission.state@,
        plan.submission.next.state@ == "recovery_required"@,
        plan.submission.next.safe_error_code is Some
            && plan.submission.next.safe_error_code->0@ == reason_text(reason),
        plan.submission.next.reconciliation_owner is None,
        plan.submission.next.reconciliation_next_attempt_at is None,
        plan.submission.next.id == submission.id,
        plan.submission.next.run_id == submission.run_id,
        plan.submission.next.attempt_id == submission.attempt_id,
        plan.submission.next.provider_response_id == submission.provider_response_id,
        plan.submission.next.provider_status == submission.provider_status,
        plan.submission.next.budget_reservation_id == submission.budget_reservation_id,
        plan.submission.next.reconciliation_generation == submission.reconciliation_generation,
        plan.submission.next.reconciliation_retry_count == submission.reconciliation_retry_count,
        plan.submission.next.retrieval_egress_decision_id
            == submission.retrieval_egress_decision_id,
        plan.run.run_id == run.id,
        plan.run.expected_row_version == run.row_version,
        plan.run.expected_state is WaitingProvider,
        plan.run.state is RecoveryRequired,
        plan.run.error_code is Some && plan.run.error_code->0 == reason,
        plan.run.latest_checkpoint_id is None,
        plan.outcome.attempt_id == submission.attempt_id,
        plan.outcome.run_id == submission.run_id,
        plan.outcome.lease_generation == submission.lease_generation,
        plan.outcome.worker_id@ == worker_id,
        plan.outcome.final_state@ == "recovery_required"@,
        plan.outcome.outcome_code@ == reason_text(reason),
        text_option(plan.outcome.provider_response_id) == text_option(
            submission.provider_response_id,
        ),
        plan.outcome.finished_at == second,
        plan.receipt is Some <==> matched.len() == 1,
        plan.receipt matches Some(write) ==> {
            &&& write.id == matched[0].receipt.id
            &&& write.expected_state is MatchedPending
            &&& write.state is RecoveryRequired
            &&& write.safe_error_code is Some && write.safe_error_code->0 == reason
            &&& write.processed_at is Some && write.processed_at->0 == second
            &&& write.run_id == submission.run_id && write.attempt_id == submission.attempt_id
        },
        plan.audit.action@ == "close_provider_background_reconciliation"@,
        plan.audit.outcome@ == "recovery_required"@,
        plan.audit.reason_code@ == reason_text(reason),
{
}

/// A claim is given back for another attempt, or its submission closed, by two
/// bounds alone: it is closed where one more retry exceeds the most that are
/// allowed, or where the next attempt would not lie before the deadline.
pub proof fn claims_are_given_back_until_exhausted(
    current: AiProviderBackgroundSubmissionRecord,
    deadline: int,
    eligible: int,
    maximum_retries: nat,
)
    ensures
        exhaustion(current, deadline, eligible, maximum_retries) is None
            <==> current.reconciliation_retry_count < maximum_retries && eligible < deadline,
        exhaustion(current, deadline, eligible, maximum_retries) == Some(
            BackgroundReason::RetryExhausted,
        ) <==> current.reconciliation_retry_count >= maximum_retries,
        exhaustion(current, deadline, eligible, maximum_retries) matches Some(reason) ==> reason
            is RetryExhausted || reason is DeadlineExhausted,
{
}

/// A claim given back leaves a row that waits for its next attempt: one retry
/// more, held by nobody, without its retrieval, and with all else unchanged but
/// for the status that the provider reported.
pub proof fn given_back_rows_wait(
    before: AiProviderBackgroundSubmissionRecord,
    after: AiProviderBackgroundSubmissionRecord,
    cause: ReleaseCause,
    eligible: int,
)
    requires
        released_row(before, after, cause, eligible),
    ensures
        after.state@ == "waiting_provider"@,
        after.reconciliation_owner is None,
        after.reconciliation_lease_expires_at is None,
        after.reconciliation_next_attempt_at is Some
            && after.reconciliation_next_attempt_at->0 == eligible,
        after.reconciliation_retry_count == before.reconciliation_retry_count + 1,
        after.reconciliation_generation == before.reconciliation_generation,
        after.reconciliation_deadline is Some && after.reconciliation_deadline
            == before.reconciliation_deadline && eligible < after.reconciliation_deadline->0,
        after.retrieval_egress_decision_id is None,
        cause matches ReleaseCause::Nonterminal(status) ==> after.provider_status is Some
            && after.provider_status->0@ == status_text(status),
        !(cause is Nonterminal) ==> after.provider_status == before.provider_status,
        after.provider_response_id == before.provider_response_id,
        after.id == before.id && after.run_id == before.run_id && after.attempt_id
            == before.attempt_id,
        after.budget_reservation_id == before.budget_reservation_id,
        after.submitted_at == before.submitted_at && after.provider_created_at
            == before.provider_created_at,
        after.safe_error_code is None && after.reconciled_at is None
            && after.terminal_message_id is None,
        after.row_version == before.row_version,
{
}

/// Giving up before the provider is called needs no retrieval, everything else
/// one that was bound; and what the provider reports as final is not given
/// back.
pub proof fn causes_fit_what_was_done(
    current: AiProviderBackgroundSubmissionRecord,
    cause: ReleaseCause,
)
    ensures
        cause_applies(current, cause) <==> match cause {
            ReleaseCause::BeforeRetrieval => true,
            ReleaseCause::Nonterminal(status) => current.retrieval_egress_decision_id is Some && (
            status is Queued || status is InProgress),
            ReleaseCause::Failure(_) => current.retrieval_egress_decision_id is Some,
        },
{
}

/// Giving a claim back works exactly for a usable claim and a fitting cause,
/// and then releases or closes by what is exhausted.
pub proof fn usable_claims_are_given_back(
    snapshot: ReleaseSnapshot,
    claim: ClaimDetails,
    cause: ReleaseCause,
    now: UtcTime,
    eligible_at: UtcTime,
    maximum_retries: nat,
    step: ReleaseStep,
)
    ensures
        release_fault(snapshot, claim, cause, now, eligible_at, maximum_retries) is None ==> {
            &&& snapshot.current is Some
            &&& claim_use_fault(snapshot.current->0, claim, now) is None
            &&& cause_applies(snapshot.current->0, cause)
        },
        snapshot.current is Some && claim_use_fault(snapshot.current->0, claim, now) is None
            && cause_applies(snapshot.current->0, cause)
            && snapshot.current->0.reconciliation_retry_count < maximum_retries
            && eligible_at.second() < claim.reconciliation_deadline.second() && (cause
            is BeforeRetrieval ==> snapshot.current->0.retrieval_egress_decision_id is None)
            ==> release_fault(
            snapshot,
            claim,
            cause,
            now,
            eligible_at,
            maximum_retries,
        ) is None,
        release_decided(step, snapshot, claim, cause, now, eligible_at, maximum_retries) ==> (step
            is Release <==> snapshot.current->0.reconciliation_retry_count < maximum_retries
            && eligible_at.second() < claim.reconciliation_deadline.second()),
{
}

/// A run, its budget, and its receipts are closed with a submission only where
/// the run is parked for it and nothing was settled yet.
pub proof fn only_unsettled_submissions_are_closed(
    run: Option<AiRunRecord>,
    submission: AiProviderBackgroundSubmissionRecord,
    matched: Seq<ReceiptCandidate>,
)
    ensures
        close_fault(run, submission, matched) is None <==> {
            &&& run is Some
            &&& run->0.state@ == "waiting_provider"@
            &&& run->0.attempt_id is Some && run->0.attempt_id->0 == submission.attempt_id
            &&& run->0.lease_generation == submission.lease_generation
            &&& run->0.lease_owner is None && run->0.lease_expires_at is None
            &&& run->0.lease_heartbeat_at is None && run->0.next_attempt_at is None
            &&& run->0.error_code is None
            &&& submission.reconciled_at is None && submission.terminal_message_id is None
            &&& receipt_closing_fault(submission, matched) is None
        },
{
}

proof fn lemma_no_candidate_fails(
    candidates: Seq<ExpiredCandidate>,
    second: int,
    maximum_retries: nat,
    count: nat,
    k: int,
)
    requires
        0 <= k < count,
        first_expiry_fault(candidates, second, maximum_retries, count) is None,
    ensures
        expiry_fault(candidates[k], second, maximum_retries) is None,
    decreases count,
{
    if k < count - 1 {
        lemma_no_candidate_fails(candidates, second, maximum_retries, (count - 1) as nat, k);
    }
}

/// Only what has expired is closed as expired: every candidate of a closed
/// batch is past its deadline and its rows can be used.
pub proof fn only_expired_submissions_are_closed_as_such(
    candidates: Seq<ExpiredCandidate>,
    second: int,
    maximum_retries: nat,
    k: int,
)
    requires
        first_expiry_fault(candidates, second, maximum_retries, candidates.len()) is None,
        0 <= k < candidates.len(),
    ensures
        candidates[k].submission.reconciliation_deadline is Some,
        candidates[k].submission.reconciliation_deadline->0 <= second,
        candidates[k].submission.state@ == "waiting_provider"@ || candidates[k].submission.state@
            == "reconciling"@,
        candidates[k].submission.terminal_message_id is None,
        graph_fault(candidates[k].graph, candidates[k].submission) is None,
{
    lemma_no_candidate_fails(candidates, second, maximum_retries, candidates.len(), k);
    submission_states_are_spelled_so(candidates[k].submission.state@);
}

/// Closing fails as not found where the run is gone, as a conflict where the
/// claim or its cause does not fit, and otherwise as a fault of the store.
pub proof fn closing_faults_say_what_is_wrong(
    snapshot: ReleaseSnapshot,
    candidate: ExpiredCandidate,
    claim: ClaimDetails,
    cause: ReleaseCause,
    now: UtcTime,
    eligible_at: UtcTime,
    maximum_retries: nat,
)
    ensures
        ({
            let submission = candidate.submission;
            let close = close_fault(candidate.graph.run, submission, candidate.matched@);
            &&& close == Some(OrmErrorCode::NotFound) <==> candidate.graph.run is None
            &&& close is Some && candidate.graph.run is Some ==> close == Some(
                OrmErrorCode::InternalError,
            )
            &&& !expired(submission, now.second(), maximum_retries, candidate.owner_valid)
                ==> expiry_fault(candidate, now.second(), maximum_retries) == Some(
                OrmErrorCode::InternalError,
            )
        }),
        snapshot.current is None ==> release_fault(
            snapshot,
            claim,
            cause,
            now,
            eligible_at,
            maximum_retries,
        ) == Some(OrmErrorCode::NotFound) && failure_close_fault(snapshot, claim, now) == Some(
            OrmErrorCode::NotFound,
        ),
        snapshot.current is Some && claim_use_fault(snapshot.current->0, claim, now) is None
            && !cause_applies(snapshot.current->0, cause) ==> release_fault(
            snapshot,
            claim,
            cause,
            now,
            eligible_at,
            maximum_retries,
        ) == Some(OrmErrorCode::Conflict),
        snapshot.current is Some && claim_use_fault(snapshot.current->0, claim, now) is None
            && snapshot.current->0.retrieval_egress_decision_id is None ==> failure_close_fault(
            snapshot,
            claim,
            now,
        ) == Some(OrmErrorCode::Conflict),
{
}

/// A claim is given back over the version that was read, and while the row is
/// being reconciled; it is audited under the worker that held it.
pub proof fn releases_are_fenced(
    plan: ReleasePlan,
    snapshot: ReleaseSnapshot,
    claim: ClaimDetails,
    cause: ReleaseCause,
    now: UtcTime,
    eligible_at: UtcTime,
    maximum_retries: nat,
)
    requires
        release_decided(
            ReleaseStep::Release(plan),
            snapshot,
            claim,
            cause,
            now,
            eligible_at,
            maximum_retries,
        ),
    ensures
        plan.submission.expected_row_version == snapshot.current->0.row_version,
        plan.submission.expected_state is Reconciling,
        plan.audit.actor_subject@ == claim.worker_id@,
        plan.audit.resource_reference@ == uuid_text(snapshot.current->0.id),
        plan.audit.causation_id@ == uuid_text(snapshot.current->0.run_id),
{
}

} // verus!
