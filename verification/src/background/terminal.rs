//! The atomic terminal commit of one exactly retrieved response, and the exact
//! check of one that is already durable.

use crate::access::{AiContentProtectionPolicy, AiRunState, run_state_text, same_policy};
use crate::background::claim::{
    AiOpenAiBackgroundReconciliationClaim, ClaimDetails, MatchedBackgroundReceipt, claim_binds,
    claim_use_fault, is_claim_bound, stored, validate_current_reconciliation_claim,
};
use crate::background::graph::{
    BackgroundClaimGraph, ClaimGraphSnapshot, claimable, expired, graph_fault, graph_read,
    load_background_claim_graph,
};
use crate::background::identity::{
    BackgroundAudit, BackgroundChange, audited, background_audit, background_terminal_identity,
    terminal_id_value,
};
use crate::background::output::{
    OutputPlan, OutputSnapshot, PreparedProviderOutput, existing_output_fault, output_binds,
    output_fault, output_planned, persist_background_provider_output, persisted_output_is_accepted,
    validate_existing_background_output,
};
use crate::background::receipts::{
    ReceiptCandidate, ReceiptState, ReceiptWrite, close_duplicate_terminal_receipts,
    commit_matched_terminal_receipt, duplicate_closed, duplicates_fault, receipt_commit_fault,
    receipt_written,
};
use crate::background::reconcile::{
    RecoveryPlan, acting_worker, acting_worker_id, attempt_ended, close_background_recovery,
    close_fault, closed_for_recovery,
};
use crate::background::retrieval::{
    AiOpenAiBackgroundRetrievalObservation, ProviderBackgroundUsage, snapshot_agrees,
    validate_claim_graph,
};
use crate::background::rows::{
    AiProviderBackgroundSubmissionRecord, AiProviderWebhookReceiptRecord,
    AiRunAttemptOutcomeRecord, AiUsageEntryRecord, RunSettlement, SubmissionWrite,
};
use crate::background::state::{
    BackgroundReason, BackgroundSubmissionState, ProviderBackgroundStatus, TerminalMapping,
    background_status_value, expected_receipt_kind, map_terminal_status, reason_text,
    receipt_kind_text, receipt_kinds_name_their_status, status_text, statuses_are_spelled_so,
    submission_state_of, submission_state_round_trip, submission_state_text,
    submission_states_are_spelled_so, terminal_mapping, terminal_statuses_settle_alike,
};
use crate::budget::amounts::{AiBudgetAmounts, as_amounts, storable};
use crate::budget::reconciliation::{
    AiBudgetReconciliationOutcome, BackgroundBudgetCommit, NewUsageEntry, background_commit_fault,
    background_usage_message, commit_uncertain_background_budget, counter_settled, settled_record,
    settlement_recorded, usage_recorded,
};
use crate::budget::rows::{
    AiBudgetCounterRecord, AiBudgetReservationRecord, StoredActual, loaded_actual,
};
use crate::clock::UtcTime;
use crate::digest::{Uuid, digest_uuid, sha256_digest};
use crate::egress::same_id_option;
use crate::error::{AiError, ErrorModel, OrmErrorCode, accepted_or, invalid_input, outcome, refusal};
use crate::inbox::stream::AiInboxStreamRecord;
use crate::records::{AiRunRecord, AiSessionRecord};
use crate::text::{
    bounded_text, clone_text_option, is_bounded_text, option_is_text, same_text, same_text_option,
    text_option,
};
use vstd::prelude::*;

verus! {

/// Durable result of consuming one terminal background observation.
#[derive(Clone, Copy, Debug, PartialEq, Eq, Structural)]
pub enum AiOpenAiBackgroundTerminalOutcome {
    /// Usage, protected assistant output, receipt, attempt, submission, and run
    /// completion committed atomically.
    Completed {
        /// Deterministic assistant message and output-checkpoint identifier.
        message_id: Uuid,
    },
    /// Authoritative provider failure and usage committed without output.
    Failed,
    /// Authoritative provider cancellation and usage committed without output.
    Cancelled,
    /// Conflicting terminal evidence was closed for operator recovery.
    RecoveryRequired,
    /// The exact terminal graph was already durable.
    AlreadyReconciled,
}

/// The usage of an observation that may be committed: its status must be
/// terminal, and its usage known.
pub fn admit_terminal_observation(observation: &AiOpenAiBackgroundRetrievalObservation) -> (result:
    Result<ProviderBackgroundUsage, AiError>)
    ensures
        refusal(result) == if !observation.observed().status.terminal() {
            Some(
                ErrorModel::InvalidInput("nonterminal background observations cannot commit"@),
            )
        } else if observation.observed().usage is None {
            Some(ErrorModel::ProviderFailed)
        } else {
            None
        },
        result matches Ok(usage) ==> observation.observed().usage == Some(usage),
{
    if !observation.status().is_terminal() {
        return Err(invalid_input("nonterminal background observations cannot commit"));
    }
    match observation.usage() {
        Some(usage) => Ok(usage),
        None => Err(AiError::ProviderFailed),
    }
}

/// Whether the submission is the one that the claim was made for, with its
/// provider.
pub open spec fn submission_binds(
    submission: AiProviderBackgroundSubmissionRecord,
    claim: ClaimDetails,
) -> bool {
    claim_binds(submission, claim) && submission.provider_kind@ == "openai"@
}

/// Accepts the submission that the observation's claim was made for.
pub fn validate_observation_submission_binding(
    submission: &AiProviderBackgroundSubmissionRecord,
    claim: &AiOpenAiBackgroundReconciliationClaim,
) -> (result: Result<(), AiError>)
    ensures
        outcome(result) == accepted_or(
            submission_binds(*submission, claim@),
            ErrorModel::Conflict,
        ),
{
    if is_claim_bound(submission, claim.details()) && same_text(
        submission.provider_kind.as_str(),
        "openai",
    ) {
        Ok(())
    } else {
        Err(AiError::Conflict)
    }
}

/// Whether the reservation is the claim's own and names its pricing policy.
pub open spec fn terminal_budget_bound(
    budget: AiBudgetReservationRecord,
    claim: ClaimDetails,
) -> bool {
    &&& budget.id == claim.budget_reservation_id
    &&& budget.session_id == claim.session_id
    &&& budget.run_id == claim.run_id
    &&& budget.attempt_id == claim.attempt_id
    &&& budget.lease_generation == claim.original_lease_generation
    &&& budget.provider_kind@ == "openai"@
    &&& budget.provider_model@ == claim.provider_model@
    &&& bounded_text(budget.pricing_policy_version@, 256)
}

/// Accepts the claim's own reservation.
pub fn validate_terminal_budget_binding(
    budget: &AiBudgetReservationRecord,
    claim: &AiOpenAiBackgroundReconciliationClaim,
) -> (result: Result<(), AiError>)
    ensures
        outcome(result) == accepted_or(
            terminal_budget_bound(*budget, claim@),
            ErrorModel::Conflict,
        ),
{
    let details = claim.details();
    if budget.id == details.budget_reservation_id && budget.session_id == details.session_id
        && budget.run_id == details.run_id && budget.attempt_id == details.attempt_id
        && budget.lease_generation == details.original_lease_generation && same_text(
        budget.provider_kind.as_str(),
        "openai",
    ) && same_text(budget.provider_model.as_str(), details.provider_model.as_str())
        && is_bounded_text(budget.pricing_policy_version.as_str(), 256) {
        Ok(())
    } else {
        Err(AiError::Conflict)
    }
}

/// Whether the settled amounts are exactly what the provider reported for one
/// tool-free run.
pub open spec fn usage_settled(actual: AiBudgetAmounts, usage: ProviderBackgroundUsage) -> bool {
    &&& actual.input_tokens == usage.input_tokens
    &&& actual.output_tokens == usage.output_tokens
    &&& actual.tool_units == 0
    &&& actual.image_units == 0
    &&& actual.runs == 1
}

/// Accepts settled amounts that are exactly what the provider reported.
pub fn check_settled_usage(actual: AiBudgetAmounts, usage: ProviderBackgroundUsage) -> (result:
    Result<(), AiError>)
    ensures
        outcome(result) == accepted_or(usage_settled(actual, usage), ErrorModel::ProviderFailed),
{
    if actual.input_tokens == usage.input_tokens && actual.output_tokens == usage.output_tokens
        && actual.tool_units == 0 && actual.image_units == 0 && actual.runs == 1 {
        Ok(())
    } else {
        Err(AiError::ProviderFailed)
    }
}

/// Whether the submission was settled by a terminal commit.
pub open spec fn row_settled(submission: AiProviderBackgroundSubmissionRecord) -> bool {
    submission_state_of(submission.state@) matches Some(state) && (state is Completed || state
        is Failed || state is Cancelled)
}

/// Whether the submission was settled by a terminal commit.
pub fn is_settled(submission: &AiProviderBackgroundSubmissionRecord) -> (result: bool)
    ensures
        result == row_settled(*submission),
{
    match BackgroundSubmissionState::from_persisted(submission.state.as_str()) {
        Some(BackgroundSubmissionState::Completed)
        | Some(BackgroundSubmissionState::Failed)
        | Some(BackgroundSubmissionState::Cancelled) => true,
        _ => false,
    }
}

/// Accepts a protection policy that has not changed since the output was
/// protected.
pub fn require_unchanged_policy(
    policy: &AiContentProtectionPolicy,
    current: &AiContentProtectionPolicy,
) -> (result: Result<(), AiError>)
    ensures
        outcome(result) == accepted_or(current@ == policy@, ErrorModel::ReauthorizationFailed),
{
    if same_policy(current, policy) {
        Ok(())
    } else {
        Err(AiError::ReauthorizationFailed)
    }
}

/// Where the commit of one observation stands: which action it is waiting for.
#[derive(Clone, Copy, Debug, PartialEq, Eq, Structural)]
pub enum CommitPhase {
    /// Load the submission and check its binding.
    LoadingSubmission,
    /// Load the reservation and check its binding.
    LoadingBudget,
    /// Settle the reported usage and check it.
    SettlingUsage,
    /// Check the durable graph of a submission that is already settled.
    Replaying,
    /// Check current authority and read the protection policy.
    CheckingPolicy,
    /// Protect the output of a completed response.
    PreparingOutput,
    /// Check current authority again, and that the policy has not changed.
    RecheckingPolicy,
    /// Run the commit transaction.
    Committing,
    /// Return that the graph was already durable.
    AlreadyReconciled,
    /// Return what the transaction committed.
    Committed,
}

/// One commit in progress.
#[derive(Clone, Copy, Debug, PartialEq, Eq, Structural)]
pub struct TerminalCommit {
    pub phase: CommitPhase,
    /// Whether the response was completed and so has output.
    pub completed: bool,
    /// Whether the loaded submission was already settled.
    pub settled: bool,
}

/// The phase after an action succeeded.
pub open spec fn next_commit_phase(commit: TerminalCommit) -> CommitPhase {
    match commit.phase {
        CommitPhase::LoadingSubmission => CommitPhase::LoadingBudget,
        CommitPhase::LoadingBudget => CommitPhase::SettlingUsage,
        CommitPhase::SettlingUsage => if commit.settled {
            CommitPhase::Replaying
        } else {
            CommitPhase::CheckingPolicy
        },
        CommitPhase::Replaying => CommitPhase::AlreadyReconciled,
        CommitPhase::CheckingPolicy => if commit.completed {
            CommitPhase::PreparingOutput
        } else {
            CommitPhase::RecheckingPolicy
        },
        CommitPhase::PreparingOutput => CommitPhase::RecheckingPolicy,
        CommitPhase::RecheckingPolicy => CommitPhase::Committing,
        CommitPhase::Committing => CommitPhase::Committed,
        CommitPhase::AlreadyReconciled => CommitPhase::AlreadyReconciled,
        CommitPhase::Committed => CommitPhase::Committed,
    }
}

impl TerminalCommit {
    /// Starts the commit of a terminal observation.
    pub fn begin(status: ProviderBackgroundStatus) -> (commit: TerminalCommit)
        ensures
            commit == (TerminalCommit {
                phase: CommitPhase::LoadingSubmission,
                completed: status is Completed,
                settled: false,
            }),
    {
        let completed: bool = match status {
            ProviderBackgroundStatus::Completed => true,
            _ => false,
        };
        TerminalCommit { phase: CommitPhase::LoadingSubmission, completed, settled: false }
    }

    /// Records the loaded submission.
    pub fn loaded(self, submission: &AiProviderBackgroundSubmissionRecord) -> (commit: Self)
        ensures
            commit == (TerminalCommit { settled: row_settled(*submission), ..self }),
    {
        TerminalCommit { settled: is_settled(submission), ..self }
    }

    /// Answers how the last action ended: the next action, or the error that
    /// ends the commit.
    pub fn step(self, ended: Result<(), AiError>) -> (result: Result<TerminalCommit, AiError>)
        ensures
            match ended {
                Ok(()) => result == Ok::<TerminalCommit, AiError>(
                    TerminalCommit { phase: next_commit_phase(self), ..self },
                ),
                Err(error) => result == Err::<TerminalCommit, AiError>(error),
            },
    {
        match ended {
            Ok(()) => {},
            Err(error) => return Err(error),
        }
        let phase: CommitPhase = match self.phase {
            CommitPhase::LoadingSubmission => CommitPhase::LoadingBudget,
            CommitPhase::LoadingBudget => CommitPhase::SettlingUsage,
            CommitPhase::SettlingUsage => if self.settled {
                CommitPhase::Replaying
            } else {
                CommitPhase::CheckingPolicy
            },
            CommitPhase::Replaying => CommitPhase::AlreadyReconciled,
            CommitPhase::CheckingPolicy => if self.completed {
                CommitPhase::PreparingOutput
            } else {
                CommitPhase::RecheckingPolicy
            },
            CommitPhase::PreparingOutput => CommitPhase::RecheckingPolicy,
            CommitPhase::RecheckingPolicy => CommitPhase::Committing,
            CommitPhase::Committing => CommitPhase::Committed,
            CommitPhase::AlreadyReconciled => CommitPhase::AlreadyReconciled,
            CommitPhase::Committed => CommitPhase::Committed,
        };
        Ok(TerminalCommit { phase, ..self })
    }
}

/// The transaction runs only after authority was checked twice, the second
/// time right before it, and never for a submission that is already settled;
/// output is protected exactly where the response was completed.
pub proof fn commit_follows_rechecked_authority(commit: TerminalCommit)
    ensures
        next_commit_phase(commit) is Committing <==> commit.phase is RecheckingPolicy,
        next_commit_phase(commit) is RecheckingPolicy <==> commit.phase is PreparingOutput || (
        commit.phase is CheckingPolicy && !commit.completed),
        next_commit_phase(commit) is PreparingOutput <==> commit.phase is CheckingPolicy
            && commit.completed,
        next_commit_phase(commit) is CheckingPolicy <==> commit.phase is SettlingUsage
            && !commit.settled,
        next_commit_phase(commit) is Replaying <==> commit.phase is SettlingUsage
            && commit.settled,
{
}

/// Rows that a terminal commit reads.
///
/// `matched` is the receipt that was matched in the same transaction; `bound`
/// are the receipts bound to the submission afterwards, `receipt` the row with
/// the matched receipt's identity, and `further` the pending receipts about
/// the same response. `counters` holds, in order, the counter for each
/// identifier in the reservation's counter list, and `stream` the row with the
/// identity of the owner's inbox stream.
#[derive(Debug, PartialEq, Eq)]
pub struct CommitSnapshot {
    pub current: Option<AiProviderBackgroundSubmissionRecord>,
    pub graph: ClaimGraphSnapshot,
    pub matched: Option<MatchedBackgroundReceipt>,
    pub bound: Vec<ReceiptCandidate>,
    pub receipt: Option<ReceiptCandidate>,
    pub further: Vec<ReceiptCandidate>,
    pub counters: Vec<Option<AiBudgetCounterRecord>>,
    pub stream: Option<AiInboxStreamRecord>,
}

/// Most pending receipts that one terminal commit closes.
pub const MAXIMUM_DUPLICATE_RECEIPTS: usize = 64;

/// Why a claim cannot be committed, before any receipt is matched.
pub open spec fn commit_claim_fault(
    current: Option<AiProviderBackgroundSubmissionRecord>,
    graph: ClaimGraphSnapshot,
    claim: ClaimDetails,
    now: UtcTime,
) -> Option<OrmErrorCode> {
    if current is None {
        Some(OrmErrorCode::NotFound)
    } else if claim_use_fault(current->0, claim, now) is Some {
        claim_use_fault(current->0, claim, now)
    } else if graph_fault(graph, current->0) is Some {
        graph_fault(graph, current->0)
    } else if !snapshot_agrees(claim, graph) {
        Some(OrmErrorCode::Conflict)
    } else {
        None
    }
}

/// Checks a claim and the rows around it before its terminal commit.
pub fn check_commit(
    current: &Option<AiProviderBackgroundSubmissionRecord>,
    graph: &ClaimGraphSnapshot,
    claim: &AiOpenAiBackgroundReconciliationClaim,
    now: UtcTime,
) -> (result: Result<BackgroundClaimGraph, OrmErrorCode>)
    requires
        claim.wf(),
        now.wf(),
    ensures
        match result {
            Ok(read) => commit_claim_fault(*current, *graph, claim@, now) is None && graph_read(
                read,
                *graph,
            ),
            Err(code) => commit_claim_fault(*current, *graph, claim@, now) == Some(code),
        },
{
    let row: &AiProviderBackgroundSubmissionRecord = match current {
        Some(row) => row,
        None => return Err(OrmErrorCode::NotFound),
    };
    match validate_current_reconciliation_claim(row, claim, now) {
        Ok(()) => {},
        Err(code) => return Err(code),
    }
    let read: BackgroundClaimGraph = match load_background_claim_graph(graph, row) {
        Ok(read) => read,
        Err(code) => return Err(code),
    };
    match validate_claim_graph(claim, &read) {
        Ok(()) => Ok(read),
        Err(code) => Err(code),
    }
}

/// Whether a matched receipt contradicts the retrieved status.
pub open spec fn receipt_contradicts(
    matched: Option<MatchedBackgroundReceipt>,
    status: ProviderBackgroundStatus,
) -> bool {
    matched matches Some(receipt) && receipt.provider_event_kind@ != receipt_kind_text(status)
}

/// Why the local graph cannot be committed, in the order of checks.
pub open spec fn terminal_graph_fault(
    snapshot: CommitSnapshot,
    status: ProviderBackgroundStatus,
    output: Option<PreparedProviderOutput>,
    expected_checkpoint_hash: Seq<char>,
) -> Option<OrmErrorCode> {
    let submission = snapshot.current->0;
    let persisted = output_fault(
        snapshot.graph.session->0,
        submission,
        output->0,
        expected_checkpoint_hash,
        snapshot.stream,
    );
    let receipt = receipt_commit_fault(
        submission,
        snapshot.receipt,
        snapshot.matched->0,
        status,
    );
    if terminal_mapping(status) is None {
        Some(OrmErrorCode::Conflict)
    } else if (status is Completed) != (output is Some) {
        Some(OrmErrorCode::InternalError)
    } else if output is Some && persisted is Some {
        persisted
    } else if snapshot.matched is Some && receipt is Some {
        receipt
    } else {
        duplicates_fault(submission, snapshot.further@, MAXIMUM_DUPLICATE_RECEIPTS as nat)
    }
}

/// Every write that commits the local graph of a terminal response.
#[derive(Debug, PartialEq, Eq)]
pub struct TerminalGraphPlan {
    pub output: Option<OutputPlan>,
    pub run: RunSettlement,
    pub submission: SubmissionWrite,
    pub receipt: Option<ReceiptWrite>,
    pub duplicates: Vec<ReceiptWrite>,
    pub outcome: AiRunAttemptOutcomeRecord,
    pub audit: BackgroundAudit,
    pub result: AiOpenAiBackgroundTerminalOutcome,
}

/// The text of an optional reason.
pub open spec fn reason_option(reason: Option<BackgroundReason>) -> Option<Seq<char>> {
    match reason {
        Some(reason) => Some(reason_text(reason)),
        None => None,
    }
}

/// The message of a completed response.
pub open spec fn output_message(output: Option<PreparedProviderOutput>) -> Option<Uuid> {
    match output {
        Some(output) => Some(output.message_id),
        None => None,
    }
}

/// What a committed status is reported as.
pub open spec fn terminal_result(
    status: ProviderBackgroundStatus,
    message_id: Option<Uuid>,
) -> AiOpenAiBackgroundTerminalOutcome {
    match status {
        ProviderBackgroundStatus::Completed => AiOpenAiBackgroundTerminalOutcome::Completed {
            message_id: message_id->0,
        },
        ProviderBackgroundStatus::Cancelled => AiOpenAiBackgroundTerminalOutcome::Cancelled,
        _ => AiOpenAiBackgroundTerminalOutcome::Failed,
    }
}

/// Whether the row is settled with this status, held by nobody.
pub open spec fn settled_row(
    submission: AiProviderBackgroundSubmissionRecord,
    status: ProviderBackgroundStatus,
    message_id: Option<Uuid>,
) -> bool {
    let mapping = terminal_mapping(status)->0;
    &&& submission.state@ == submission_state_text(mapping.submission_state)
    &&& text_option(submission.provider_status) == Some(status_text(status))
    &&& text_option(submission.safe_error_code) == reason_option(mapping.stored_reason)
    &&& submission.reconciled_at is Some
    &&& submission.terminal_message_id == message_id
    &&& submission.reconciliation_owner is None
    &&& submission.reconciliation_lease_expires_at is None
    &&& submission.reconciliation_next_attempt_at is None
}

/// Accepts exactly the rows that are settled with this status at this instant.
pub fn confirm_terminal_row(
    submission: &AiProviderBackgroundSubmissionRecord,
    status: ProviderBackgroundStatus,
    message_id: Option<Uuid>,
    now: UtcTime,
) -> (result: Result<(), OrmErrorCode>)
    requires
        now.wf(),
        status.terminal(),
    ensures
        result == if settled_row(*submission, status, message_id) && submission.reconciled_at->0
            == now.second() {
            Ok::<(), OrmErrorCode>(())
        } else {
            Err(OrmErrorCode::InternalError)
        },
{
    let settled_now: bool = match submission.reconciled_at {
        Some(at) => at == now.unix_timestamp(),
        None => false,
    };
    if is_settled_row(submission, status, message_id) && settled_now {
        Ok(())
    } else {
        Err(OrmErrorCode::InternalError)
    }
}

fn is_reason_stored(column: &Option<String>, reason: Option<BackgroundReason>) -> (result: bool)
    ensures
        result == (text_option(*column) == reason_option(reason)),
{
    match (column, reason) {
        (Some(code), Some(reason)) => same_text(code.as_str(), reason.as_str()),
        (None, None) => true,
        _ => false,
    }
}

fn is_settled_row(
    submission: &AiProviderBackgroundSubmissionRecord,
    status: ProviderBackgroundStatus,
    message_id: Option<Uuid>,
) -> (result: bool)
    requires
        status.terminal(),
    ensures
        result == settled_row(*submission, status, message_id),
{
    let mapping: TerminalMapping = match map_terminal_status(status) {
        Some(mapping) => mapping,
        None => return false,
    };
    same_text(submission.state.as_str(), mapping.submission_state.as_str()) && option_is_text(
        &submission.provider_status,
        background_status_value(status),
    ) && is_reason_stored(&submission.safe_error_code, mapping.stored_reason)
        && submission.reconciled_at.is_some() && same_id_option(
        submission.terminal_message_id,
        message_id,
    ) && submission.reconciliation_owner.is_none()
        && submission.reconciliation_lease_expires_at.is_none()
        && submission.reconciliation_next_attempt_at.is_none()
}

/// Whether the plan commits exactly this status: output, run, submission,
/// receipts, attempt, and audit together.
pub open spec fn terminal_graph_planned(
    plan: TerminalGraphPlan,
    snapshot: CommitSnapshot,
    status: ProviderBackgroundStatus,
    output: Option<PreparedProviderOutput>,
    now: UtcTime,
) -> bool {
    let submission = snapshot.current->0;
    let run = snapshot.graph.run->0;
    let mapping = terminal_mapping(status)->0;
    let message_id = output_message(output);
    let next = plan.submission.next;
    &&& match plan.output {
        Some(persisted) => output is Some && output_planned(
            persisted,
            snapshot.graph.session->0,
            submission,
            run,
            output->0,
            snapshot.stream,
            now.second(),
        ),
        None => output is None,
    }
    &&& plan.run == (RunSettlement {
        run_id: run.id,
        expected_row_version: run.row_version,
        expected_state: AiRunState::WaitingProvider,
        state: mapping.run_state,
        error_code: mapping.stored_reason,
        latest_checkpoint_id: message_id,
    })
    &&& plan.submission.expected_row_version == submission.row_version
    &&& plan.submission.expected_state is Reconciling
    &&& settled_row(next, status, message_id)
    &&& next.reconciled_at->0 == now.second()
    &&& submission == (AiProviderBackgroundSubmissionRecord {
        provider_status: submission.provider_status,
        state: submission.state,
        safe_error_code: submission.safe_error_code,
        reconciliation_owner: submission.reconciliation_owner,
        reconciliation_lease_expires_at: submission.reconciliation_lease_expires_at,
        reconciliation_next_attempt_at: submission.reconciliation_next_attempt_at,
        reconciled_at: submission.reconciled_at,
        terminal_message_id: submission.terminal_message_id,
        ..next
    })
    &&& match plan.receipt {
        Some(write) => snapshot.matched is Some && receipt_written(
            write,
            snapshot.receipt->0.receipt,
            submission,
            ReceiptState::MatchedPending,
            ReceiptState::Processed,
            None,
            Some(now.second()),
        ),
        None => snapshot.matched is None,
    }
    &&& plan.duplicates@.len() == snapshot.further@.len()
    &&& forall|i: int|
        0 <= i < plan.duplicates@.len() ==> duplicate_closed(
            #[trigger] plan.duplicates@[i],
            snapshot.further@[i].receipt,
            submission,
            status,
            now.second(),
        )
    &&& attempt_ended(
        plan.outcome,
        submission,
        snapshot.graph.attempts@[0].worker_id@,
        run_state_text(mapping.run_state),
        mapping.outcome,
        now.second(),
    )
    &&& audited(
        plan.audit,
        BackgroundChange::CommitTerminal(mapping.submission_state, mapping.outcome),
        acting_worker(submission),
        submission.id,
        submission.id,
        submission.run_id,
        "provider-background-reconciliation-v1"@,
    )
    &&& plan.result == terminal_result(status, message_id)
}

/// Plans the commit of the local graph of a terminal response.
#[verifier::rlimit(60)]
pub fn commit_background_terminal_graph(
    snapshot: &CommitSnapshot,
    attempt_worker_id: &str,
    status: ProviderBackgroundStatus,
    output: &Option<PreparedProviderOutput>,
    expected_checkpoint_hash: &str,
    now: UtcTime,
) -> (result: Result<TerminalGraphPlan, OrmErrorCode>)
    requires
        now.wf(),
        snapshot.current is Some,
        graph_fault(snapshot.graph, snapshot.current->0) is None,
        attempt_worker_id@ == snapshot.graph.attempts@[0].worker_id@,
    ensures
        match result {
            Err(code) => terminal_graph_fault(
                *snapshot,
                status,
                *output,
                expected_checkpoint_hash@,
            ) == Some(code),
            Ok(plan) => terminal_graph_fault(
                *snapshot,
                status,
                *output,
                expected_checkpoint_hash@,
            ) is None && terminal_graph_planned(plan, *snapshot, status, *output, now),
        },
{
    let (submission, run, session): (
        &AiProviderBackgroundSubmissionRecord,
        &AiRunRecord,
        &AiSessionRecord,
    ) = match (&snapshot.current, &snapshot.graph.run, &snapshot.graph.session) {
        (Some(submission), Some(run), Some(session)) => (submission, run, session),
        _ => return Err(OrmErrorCode::NotFound),
    };
    let mapping: TerminalMapping = match map_terminal_status(status) {
        Some(mapping) => mapping,
        None => return Err(OrmErrorCode::Conflict),
    };
    let completed: bool = match status {
        ProviderBackgroundStatus::Completed => true,
        _ => false,
    };
    let message_id: Option<Uuid> = match output {
        Some(output) => Some(output.message_id),
        None => None,
    };
    if completed != message_id.is_some() {
        return Err(OrmErrorCode::InternalError);
    }
    let persisted: Option<OutputPlan> = match output {
        Some(output) => match persist_background_provider_output(
            session,
            submission,
            run,
            output,
            expected_checkpoint_hash,
            &snapshot.stream,
            now,
        ) {
            Ok(plan) => Some(plan),
            Err(code) => return Err(code),
        },
        None => None,
    };
    let receipt: Option<ReceiptWrite> = match &snapshot.matched {
        Some(matched) => match commit_matched_terminal_receipt(
            submission,
            &snapshot.receipt,
            matched,
            status,
            now,
        ) {
            Ok(write) => Some(write),
            Err(code) => return Err(code),
        },
        None => None,
    };
    let duplicates: Vec<ReceiptWrite> = match close_duplicate_terminal_receipts(
        submission,
        &snapshot.further,
        status,
        now,
        MAXIMUM_DUPLICATE_RECEIPTS,
    ) {
        Ok(writes) => writes,
        Err(code) => return Err(code),
    };
    let second: i64 = now.unix_timestamp();
    let stored_code: Option<String> = match mapping.stored_reason {
        Some(reason) => Some(reason.as_str().to_owned()),
        None => None,
    };
    let mut next = submission.clone();
    next.provider_status = Some(background_status_value(status).to_owned());
    next.state = mapping.submission_state.as_str().to_owned();
    next.safe_error_code = stored_code;
    next.reconciliation_owner = None;
    next.reconciliation_lease_expires_at = None;
    next.reconciliation_next_attempt_at = None;
    next.reconciled_at = Some(second);
    next.terminal_message_id = message_id;
    let worker = acting_worker_id(submission);
    let audit = background_audit(
        BackgroundChange::CommitTerminal(mapping.submission_state, mapping.outcome),
        worker.as_str(),
        submission.id,
        submission.id,
        submission.run_id,
        "provider-background-reconciliation-v1",
    );
    let result: AiOpenAiBackgroundTerminalOutcome = match (status, message_id) {
        (ProviderBackgroundStatus::Completed, Some(message_id)) => {
            AiOpenAiBackgroundTerminalOutcome::Completed { message_id }
        },
        (ProviderBackgroundStatus::Cancelled, _) => AiOpenAiBackgroundTerminalOutcome::Cancelled,
        _ => AiOpenAiBackgroundTerminalOutcome::Failed,
    };
    Ok(
        TerminalGraphPlan {
            output: persisted,
            run: RunSettlement {
                run_id: run.id,
                expected_row_version: run.row_version,
                expected_state: AiRunState::WaitingProvider,
                state: mapping.run_state,
                error_code: mapping.stored_reason,
                latest_checkpoint_id: message_id,
            },
            submission: SubmissionWrite {
                expected_row_version: submission.row_version,
                expected_state: BackgroundSubmissionState::Reconciling,
                next,
            },
            receipt,
            duplicates,
            outcome: AiRunAttemptOutcomeRecord {
                attempt_id: submission.attempt_id,
                run_id: submission.run_id,
                lease_generation: submission.lease_generation,
                worker_id: attempt_worker_id.to_owned(),
                final_state: mapping.run_state.as_str().to_owned(),
                outcome_code: mapping.outcome.as_str().to_owned(),
                provider_response_id: clone_text_option(&submission.provider_response_id),
                finished_at: second,
            },
            audit,
            result,
        },
    )
}

/// Every write of one terminal commit.
#[derive(Debug, PartialEq, Eq)]
pub struct TerminalPlan {
    pub budget: BackgroundBudgetCommit,
    pub graph: TerminalGraphPlan,
}

/// What a terminal commit comes to.
#[derive(Debug, PartialEq, Eq)]
pub enum TerminalStep {
    /// The response is committed.
    Commit(TerminalPlan),
    /// The matched receipt contradicts the response; the submission is closed
    /// for recovery, its budget stays uncertain.
    Close(RecoveryPlan),
}

/// Why a terminal commit fails, in the order of checks.
pub open spec fn commit_fault(
    snapshot: CommitSnapshot,
    observation: AiOpenAiBackgroundRetrievalObservation,
    output: Option<PreparedProviderOutput>,
    actual: AiBudgetAmounts,
    expected_checkpoint_hash: Seq<char>,
    now: UtcTime,
) -> Option<OrmErrorCode> {
    let claim = observation.claimed()@;
    let status = observation.observed().status;
    let usage = observation.observed().usage;
    let claim_fault = commit_claim_fault(snapshot.current, snapshot.graph, claim, now);
    let budget = snapshot.graph.budget->0;
    let budget_fault = background_commit_fault(
        budget,
        snapshot.counters@,
        actual,
        usage->0.cached_input_tokens,
    );
    if claim_fault is Some {
        claim_fault
    } else if receipt_contradicts(snapshot.matched, status) {
        close_fault(snapshot.graph.run, snapshot.current->0, snapshot.bound@)
    } else if !terminal_budget_bound(budget, claim) {
        Some(OrmErrorCode::Conflict)
    } else if usage is None {
        Some(OrmErrorCode::InternalError)
    } else if budget_fault is Some {
        budget_fault
    } else {
        terminal_graph_fault(snapshot, status, output, expected_checkpoint_hash)
    }
}

/// Whether the plan commits exactly this usage of the reservation.
pub open spec fn budget_planned(
    plan: BackgroundBudgetCommit,
    budget: AiBudgetReservationRecord,
    counters: Seq<Option<AiBudgetCounterRecord>>,
    actual: AiBudgetAmounts,
    cached: u64,
    second: int,
) -> bool {
    &&& plan.counters@.len() == counters.len()
    &&& forall|k: int|
        0 <= k < counters.len() ==> counter_settled(
            counters[k],
            as_amounts(budget.reserved),
            Some(actual),
            #[trigger] plan.counters@[k],
        )
    &&& usage_recorded(
        plan.usage,
        digest_uuid(sha256_digest(background_usage_message(budget.id))) as u128,
        budget,
        actual,
        cached,
    )
    &&& settlement_recorded(
        plan.reservation,
        budget,
        Some(actual),
        Some(cached),
        AiBudgetReconciliationOutcome::Commit,
        second,
    )
}

/// Plans one terminal commit: usage, output, run, submission, receipts, and
/// attempt together, or the close for recovery where the matched receipt
/// contradicts the retrieved status.
#[verifier::rlimit(60)]
pub fn commit_once(
    snapshot: &CommitSnapshot,
    observation: &AiOpenAiBackgroundRetrievalObservation,
    output: &Option<PreparedProviderOutput>,
    actual: AiBudgetAmounts,
    expected_checkpoint_hash: &str,
    now: UtcTime,
) -> (result: Result<TerminalStep, OrmErrorCode>)
    requires
        observation.wf(),
        now.wf(),
        snapshot.graph.budget matches Some(budget) ==> (budget.budget_counter_ids matches Some(ids)
            ==> snapshot.counters@.len() == ids@.len()),
    ensures
        match result {
            Err(code) => commit_fault(
                *snapshot,
                *observation,
                *output,
                actual,
                expected_checkpoint_hash@,
                now,
            ) == Some(code),
            Ok(step) => {
                let status = observation.observed().status;
                &&& commit_fault(
                    *snapshot,
                    *observation,
                    *output,
                    actual,
                    expected_checkpoint_hash@,
                    now,
                ) is None
                &&& match step {
                    TerminalStep::Commit(plan) => {
                        &&& !receipt_contradicts(snapshot.matched, status)
                        &&& budget_planned(
                            plan.budget,
                            snapshot.graph.budget->0,
                            snapshot.counters@,
                            actual,
                            observation.observed().usage->0.cached_input_tokens,
                            now.second(),
                        )
                        &&& terminal_graph_planned(plan.graph, *snapshot, status, *output, now)
                    },
                    TerminalStep::Close(plan) => {
                        &&& receipt_contradicts(snapshot.matched, status)
                        &&& closed_for_recovery(
                            plan,
                            snapshot.graph.run->0,
                            snapshot.current->0,
                            snapshot.graph.attempts@[0].worker_id@,
                            snapshot.bound@,
                            BackgroundReason::TerminalReceiptConflict,
                            now.second(),
                        )
                    },
                }
            },
        },
{
    let claim = observation.claim();
    let graph: BackgroundClaimGraph = match check_commit(
        &snapshot.current,
        &snapshot.graph,
        claim,
        now,
    ) {
        Ok(graph) => graph,
        Err(code) => return Err(code),
    };
    let current: &AiProviderBackgroundSubmissionRecord = match &snapshot.current {
        Some(current) => current,
        None => return Err(OrmErrorCode::NotFound),
    };
    let status = observation.status();
    let contradicts: bool = match &snapshot.matched {
        Some(receipt) => !same_text(
            receipt.provider_event_kind.as_str(),
            expected_receipt_kind(status),
        ),
        None => false,
    };
    if contradicts {
        proof {
            submission_state_round_trip(BackgroundSubmissionState::Reconciling, current.state@);
        }
        return match close_background_recovery(
            &snapshot.graph.run,
            current,
            graph.attempt_worker_id.as_str(),
            &snapshot.bound,
            BackgroundReason::TerminalReceiptConflict,
            now,
        ) {
            Ok(plan) => Ok(TerminalStep::Close(plan)),
            Err(code) => Err(code),
        };
    }
    let budget: &AiBudgetReservationRecord = match &snapshot.graph.budget {
        Some(budget) => budget,
        None => return Err(OrmErrorCode::NotFound),
    };
    match validate_terminal_budget_binding(budget, claim) {
        Ok(()) => {},
        Err(_) => return Err(OrmErrorCode::Conflict),
    }
    let usage: ProviderBackgroundUsage = match observation.usage() {
        Some(usage) => usage,
        None => return Err(OrmErrorCode::InternalError),
    };
    let commit: BackgroundBudgetCommit = match commit_uncertain_background_budget(
        budget,
        &snapshot.counters,
        actual,
        usage.cached_input_tokens,
        now,
    ) {
        Ok(commit) => commit,
        Err(code) => return Err(code),
    };
    match commit_background_terminal_graph(
        snapshot,
        graph.attempt_worker_id.as_str(),
        status,
        output,
        expected_checkpoint_hash,
        now,
    ) {
        Ok(plan) => Ok(TerminalStep::Commit(TerminalPlan { budget: commit, graph: plan })),
        Err(code) => Err(code),
    }
}

/// Column that stores an amount, where it can be stored.
pub open spec fn amount_column(value: u64) -> Option<i64> {
    if value <= i64::MAX {
        Some(value as i64)
    } else {
        None
    }
}

/// The amount as a column value, where it can be stored.
pub fn amount_i64(value: u64) -> (column: Option<i64>)
    ensures
        column == amount_column(value),
{
    if value <= i64::MAX as u64 {
        Some(value as i64)
    } else {
        None
    }
}

fn same_column(left: Option<i64>, right: Option<i64>) -> (result: bool)
    ensures
        result == (left == right),
{
    match (left, right) {
        (Some(left), Some(right)) => left == right,
        (None, None) => true,
        _ => false,
    }
}

/// Whether the columns hold exactly these amounts.
pub open spec fn amounts_stored(columns: StoredActual, actual: AiBudgetAmounts) -> bool {
    &&& columns.input_tokens == amount_column(actual.input_tokens)
    &&& columns.output_tokens == amount_column(actual.output_tokens)
    &&& columns.tool_units == amount_column(actual.tool_units)
    &&& columns.image_units == amount_column(actual.image_units)
    &&& columns.cost_microunits == amount_column(actual.cost_microunits)
    &&& columns.runs == amount_column(actual.runs)
}

fn are_amounts_stored(columns: StoredActual, actual: AiBudgetAmounts) -> (result: bool)
    ensures
        result == amounts_stored(columns, actual),
{
    same_column(columns.input_tokens, amount_i64(actual.input_tokens)) && same_column(
        columns.output_tokens,
        amount_i64(actual.output_tokens),
    ) && same_column(columns.tool_units, amount_i64(actual.tool_units)) && same_column(
        columns.image_units,
        amount_i64(actual.image_units),
    ) && same_column(columns.cost_microunits, amount_i64(actual.cost_microunits)) && same_column(
        columns.runs,
        amount_i64(actual.runs),
    )
}

/// Rows that validating a durable terminal graph reads. The lists hold at most
/// two rows each.
#[derive(Debug, PartialEq, Eq)]
pub struct ReplaySnapshot {
    pub submission: Option<AiProviderBackgroundSubmissionRecord>,
    pub budget: Option<AiBudgetReservationRecord>,
    /// Usage entries of the reservation.
    pub usage: Vec<AiUsageEntryRecord>,
    pub run: Option<AiRunRecord>,
    /// Outcomes of the submission's attempt.
    pub outcomes: Vec<AiRunAttemptOutcomeRecord>,
    /// Rows of the output, where the response was completed.
    pub output: OutputSnapshot,
    /// Processed receipts about the response, bound to the submission.
    pub processed: Vec<AiProviderWebhookReceiptRecord>,
}

/// Whether the reservation was committed with exactly this usage.
pub open spec fn budget_committed(
    budget: AiBudgetReservationRecord,
    actual: AiBudgetAmounts,
    cached: u64,
) -> bool {
    &&& budget.state@ == "committed"@
    &&& amounts_stored(budget.actual, actual)
    &&& budget.actual_cached_input_tokens == amount_column(cached)
    &&& budget.reconciled_at is Some
}

/// Whether the entry repeats the reservation's settled columns.
pub open spec fn usage_matches(
    usage: AiUsageEntryRecord,
    budget: AiBudgetReservationRecord,
    submission: AiProviderBackgroundSubmissionRecord,
) -> bool {
    &&& usage.run_id == Some(submission.run_id)
    &&& usage.provider_kind@ == "openai"@
    &&& usage.provider_model@ == submission.provider_model@
    &&& Some(usage.input_tokens) == budget.actual.input_tokens
    &&& Some(usage.cached_input_tokens) == budget.actual_cached_input_tokens
    &&& Some(usage.output_tokens) == budget.actual.output_tokens
    &&& Some(usage.tool_units) == budget.actual.tool_units
    &&& Some(usage.image_units) == budget.actual.image_units
    &&& usage.cost_microunits == budget.actual.cost_microunits
}

fn is_usage_matching(
    usage: &AiUsageEntryRecord,
    budget: &AiBudgetReservationRecord,
    submission: &AiProviderBackgroundSubmissionRecord,
) -> (result: bool)
    ensures
        result == usage_matches(*usage, *budget, *submission),
{
    same_id_option(usage.run_id, Some(submission.run_id)) && same_text(
        usage.provider_kind.as_str(),
        "openai",
    ) && same_text(usage.provider_model.as_str(), submission.provider_model.as_str())
        && same_column(Some(usage.input_tokens), budget.actual.input_tokens) && same_column(
        Some(usage.cached_input_tokens),
        budget.actual_cached_input_tokens,
    ) && same_column(Some(usage.output_tokens), budget.actual.output_tokens) && same_column(
        Some(usage.tool_units),
        budget.actual.tool_units,
    ) && same_column(Some(usage.image_units), budget.actual.image_units) && same_column(
        usage.cost_microunits,
        budget.actual.cost_microunits,
    )
}

/// Whether the run ended for exactly this submission.
pub open spec fn run_ended(
    run: AiRunRecord,
    submission: AiProviderBackgroundSubmissionRecord,
    mapping: TerminalMapping,
    message_id: Option<Uuid>,
) -> bool {
    &&& run.state@ == run_state_text(mapping.run_state)
    &&& run.attempt_id == Some(submission.attempt_id)
    &&& run.lease_generation == submission.lease_generation
    &&& run.lease_owner is None
    &&& run.lease_expires_at is None
    &&& run.lease_heartbeat_at is None
    &&& run.next_attempt_at is None
    &&& text_option(run.error_code) == reason_option(mapping.stored_reason)
    &&& run.latest_checkpoint_id == message_id
}

fn is_run_ended(
    run: &AiRunRecord,
    submission: &AiProviderBackgroundSubmissionRecord,
    mapping: TerminalMapping,
    message_id: Option<Uuid>,
) -> (result: bool)
    ensures
        result == run_ended(*run, *submission, mapping, message_id),
{
    same_text(run.state.as_str(), mapping.run_state.as_str()) && same_id_option(
        run.attempt_id,
        Some(submission.attempt_id),
    ) && run.lease_generation == submission.lease_generation && run.lease_owner.is_none()
        && run.lease_expires_at.is_none() && run.lease_heartbeat_at.is_none()
        && run.next_attempt_at.is_none() && is_reason_stored(
        &run.error_code,
        mapping.stored_reason,
    ) && same_id_option(run.latest_checkpoint_id, message_id)
}

/// Whether the attempt ended with this state for exactly this submission.
pub open spec fn outcome_matches(
    outcome: AiRunAttemptOutcomeRecord,
    submission: AiProviderBackgroundSubmissionRecord,
    mapping: TerminalMapping,
) -> bool {
    &&& outcome.run_id == submission.run_id
    &&& outcome.lease_generation == submission.lease_generation
    &&& outcome.final_state@ == run_state_text(mapping.run_state)
    &&& text_option(outcome.provider_response_id) == text_option(submission.provider_response_id)
}

fn is_outcome_matching(
    outcome: &AiRunAttemptOutcomeRecord,
    submission: &AiProviderBackgroundSubmissionRecord,
    mapping: TerminalMapping,
) -> (result: bool)
    ensures
        result == outcome_matches(*outcome, *submission, mapping),
{
    outcome.run_id == submission.run_id && outcome.lease_generation == submission.lease_generation
        && same_text(outcome.final_state.as_str(), mapping.run_state.as_str()) && same_text_option(
        &outcome.provider_response_id,
        &submission.provider_response_id,
    )
}

/// Whether at most one receipt was processed, and it confirms the status.
pub open spec fn processed_confirm(
    processed: Seq<AiProviderWebhookReceiptRecord>,
    status: ProviderBackgroundStatus,
) -> bool {
    &&& processed.len() <= 1
    &&& processed.len() == 1 ==> processed[0].provider_event_kind@ == receipt_kind_text(status)
        && processed[0].processed_at is Some
}

/// The message that a status leaves behind.
pub open spec fn expected_message(
    submission_id: Uuid,
    status: ProviderBackgroundStatus,
) -> Option<Uuid> {
    if status is Completed {
        Some(terminal_id_value(submission_id, "assistant-message"@) as u128)
    } else {
        None
    }
}

/// Why the durable graph is not exactly that of this observation, in the order
/// of checks.
pub open spec fn replay_fault(
    snapshot: ReplaySnapshot,
    observation: AiOpenAiBackgroundRetrievalObservation,
    actual: AiBudgetAmounts,
    expected_checkpoint_hash: Seq<char>,
) -> Option<OrmErrorCode> {
    let claim = observation.claimed()@;
    let status = observation.observed().status;
    let usage = observation.observed().usage;
    let submission = snapshot.submission->0;
    let mapping = terminal_mapping(status)->0;
    let message_id = expected_message(submission.id, status);
    let budget = snapshot.budget->0;
    let run = snapshot.run->0;
    let output = existing_output_fault(
        snapshot.output,
        submission,
        run,
        message_id->0,
        expected_checkpoint_hash,
    );
    if snapshot.submission is None {
        Some(OrmErrorCode::NotFound)
    } else if !submission_binds(submission, claim) {
        Some(OrmErrorCode::Conflict)
    } else if terminal_mapping(status) is None {
        Some(OrmErrorCode::Conflict)
    } else if !settled_row(submission, status, message_id)
        || submission.retrieval_egress_decision_id is None {
        Some(OrmErrorCode::Conflict)
    } else if snapshot.budget is None {
        Some(OrmErrorCode::NotFound)
    } else if !terminal_budget_bound(budget, claim) {
        Some(OrmErrorCode::Conflict)
    } else if budget.state@ != "committed"@ || budget.actual.input_tokens != amount_column(
        actual.input_tokens,
    ) {
        Some(OrmErrorCode::Conflict)
    } else if usage is None {
        Some(OrmErrorCode::InternalError)
    } else if !budget_committed(budget, actual, usage->0.cached_input_tokens) {
        Some(OrmErrorCode::Conflict)
    } else if snapshot.usage@.len() != 1 || !usage_matches(
        snapshot.usage@[0],
        budget,
        submission,
    ) {
        Some(OrmErrorCode::Conflict)
    } else if snapshot.run is None {
        Some(OrmErrorCode::NotFound)
    } else if !run_ended(run, submission, mapping, message_id) {
        Some(OrmErrorCode::Conflict)
    } else if snapshot.outcomes@.len() != 1 || !outcome_matches(
        snapshot.outcomes@[0],
        submission,
        mapping,
    ) {
        Some(OrmErrorCode::Conflict)
    } else if message_id is Some && output is Some {
        output
    } else if !processed_confirm(snapshot.processed@, status) {
        Some(OrmErrorCode::Conflict)
    } else {
        None
    }
}

/// Accepts exactly the durable terminal graph of this observation.
#[verifier::rlimit(60)]
pub fn validate_existing_background_terminal(
    snapshot: &ReplaySnapshot,
    observation: &AiOpenAiBackgroundRetrievalObservation,
    actual: AiBudgetAmounts,
    expected_checkpoint_hash: &str,
) -> (result: Result<(), OrmErrorCode>)
    ensures
        match result {
            Ok(()) => replay_fault(
                *snapshot,
                *observation,
                actual,
                expected_checkpoint_hash@,
            ) is None,
            Err(code) => replay_fault(
                *snapshot,
                *observation,
                actual,
                expected_checkpoint_hash@,
            ) == Some(code),
        },
{
    let claim = observation.claim();
    let status = observation.status();
    let submission: &AiProviderBackgroundSubmissionRecord = match &snapshot.submission {
        Some(submission) => submission,
        None => return Err(OrmErrorCode::NotFound),
    };
    match validate_observation_submission_binding(submission, claim) {
        Ok(()) => {},
        Err(_) => return Err(OrmErrorCode::Conflict),
    }
    let mapping: TerminalMapping = match map_terminal_status(status) {
        Some(mapping) => mapping,
        None => return Err(OrmErrorCode::Conflict),
    };
    let message_id: Option<Uuid> = match status {
        ProviderBackgroundStatus::Completed => Some(
            background_terminal_identity(submission.id, "assistant-message"),
        ),
        _ => None,
    };
    if !is_settled_row(submission, status, message_id)
        || submission.retrieval_egress_decision_id.is_none() {
        return Err(OrmErrorCode::Conflict);
    }
    let budget: &AiBudgetReservationRecord = match &snapshot.budget {
        Some(budget) => budget,
        None => return Err(OrmErrorCode::NotFound),
    };
    match validate_terminal_budget_binding(budget, claim) {
        Ok(()) => {},
        Err(_) => return Err(OrmErrorCode::Conflict),
    }
    if !same_text(budget.state.as_str(), "committed") || !same_column(
        budget.actual.input_tokens,
        amount_i64(actual.input_tokens),
    ) {
        return Err(OrmErrorCode::Conflict);
    }
    let usage: ProviderBackgroundUsage = match observation.usage() {
        Some(usage) => usage,
        None => return Err(OrmErrorCode::InternalError),
    };
    if !are_amounts_stored(budget.actual, actual) || !same_column(
        budget.actual_cached_input_tokens,
        amount_i64(usage.cached_input_tokens),
    ) || budget.reconciled_at.is_none() {
        return Err(OrmErrorCode::Conflict);
    }
    if snapshot.usage.len() != 1 || !is_usage_matching(&snapshot.usage[0], budget, submission) {
        return Err(OrmErrorCode::Conflict);
    }
    let run: &AiRunRecord = match &snapshot.run {
        Some(run) => run,
        None => return Err(OrmErrorCode::NotFound),
    };
    if !is_run_ended(run, submission, mapping, message_id) {
        return Err(OrmErrorCode::Conflict);
    }
    if snapshot.outcomes.len() != 1 || !is_outcome_matching(
        &snapshot.outcomes[0],
        submission,
        mapping,
    ) {
        return Err(OrmErrorCode::Conflict);
    }
    match message_id {
        Some(message_id) => match validate_existing_background_output(
            &snapshot.output,
            submission,
            run,
            message_id,
            expected_checkpoint_hash,
        ) {
            Ok(()) => {},
            Err(code) => return Err(code),
        },
        None => {},
    }
    if snapshot.processed.len() > 1 {
        return Err(OrmErrorCode::Conflict);
    }
    if snapshot.processed.len() == 1 {
        let receipt = &snapshot.processed[0];
        if !same_text(receipt.provider_event_kind.as_str(), expected_receipt_kind(status))
            || receipt.processed_at.is_none() {
            return Err(OrmErrorCode::Conflict);
        }
    }
    Ok(())
}

/// Whether the run row is the one that the settlement leaves behind.
pub open spec fn settled_run(
    before: AiRunRecord,
    after: AiRunRecord,
    settlement: RunSettlement,
) -> bool {
    &&& after.id == before.id
    &&& after.session_id == before.session_id
    &&& after.state@ == run_state_text(settlement.state)
    &&& after.attempt_id == before.attempt_id
    &&& after.lease_generation == before.lease_generation
    &&& after.lease_owner is None
    &&& after.lease_expires_at is None
    &&& after.lease_heartbeat_at is None
    &&& after.next_attempt_at is None
    &&& text_option(after.error_code) == reason_option(settlement.error_code)
    &&& after.latest_checkpoint_id == match settlement.latest_checkpoint_id {
        Some(id) => Some(id),
        None => before.latest_checkpoint_id,
    }
    &&& after.input_message_id == before.input_message_id
}

/// Whether the entry row is the one that the commit inserted.
pub open spec fn inserted_usage(
    row: AiUsageEntryRecord,
    entry: NewUsageEntry,
) -> bool {
    &&& row.run_id == Some(entry.run_id)
    &&& row.provider_kind == entry.provider_kind
    &&& row.provider_model == entry.provider_model
    &&& row.input_tokens == entry.input_tokens
    &&& row.cached_input_tokens == entry.cached_input_tokens
    &&& row.output_tokens == entry.output_tokens
    &&& row.tool_units == entry.tool_units
    &&& row.image_units == entry.image_units
    &&& row.cost_microunits == Some(entry.cost_microunits)
}

/// Whether the rows are the ones that a terminal commit leaves behind.
pub open spec fn committed_rows(
    later: ReplaySnapshot,
    snapshot: CommitSnapshot,
    plan: TerminalPlan,
    submission_version: i64,
    budget_version: i64,
) -> bool {
    &&& later.submission == Some(stored(plan.graph.submission.next, submission_version))
    &&& later.budget == Some(
        settled_record(snapshot.graph.budget->0, plan.budget.reservation, budget_version),
    )
    &&& later.usage@.len() == 1 && inserted_usage(later.usage@[0], plan.budget.usage)
    &&& later.run is Some && settled_run(
        snapshot.graph.run->0,
        later.run->0,
        plan.graph.run,
    )
    &&& later.outcomes@ == seq![plan.graph.outcome]
    &&& plan.graph.output matches Some(output) ==> {
        &&& later.output.message == Some(output.message)
        &&& later.output.checkpoints@ == seq![output.checkpoint]
        &&& later.output.blocks@ == output.blocks@
        &&& later.output.event == Some(output.event)
        &&& later.output.inbox == Some(output.inbox.event)
    }
    &&& match plan.graph.receipt {
        Some(write) => later.processed@.len() == 1 && later.processed@[0].provider_event_kind
            == snapshot.receipt->0.receipt.provider_event_kind && later.processed@[0].processed_at
            == write.processed_at,
        None => later.processed@.len() == 0,
    }
}

/// A terminal commit reports exactly the retrieved status: it is completed, or
/// cancelled, where the response is, and failed where the response failed or is
/// incomplete. A status that is not terminal is never committed.
pub proof fn outcome_reports_status(
    snapshot: CommitSnapshot,
    observation: AiOpenAiBackgroundRetrievalObservation,
    output: Option<PreparedProviderOutput>,
    actual: AiBudgetAmounts,
    expected_checkpoint_hash: Seq<char>,
    now: UtcTime,
    plan: TerminalGraphPlan,
)
    requires
        commit_fault(snapshot, observation, output, actual, expected_checkpoint_hash, now) is None,
        !receipt_contradicts(snapshot.matched, observation.observed().status),
        terminal_graph_planned(plan, snapshot, observation.observed().status, output, now),
    ensures
        ({
            let status = observation.observed().status;
            &&& status.terminal()
            &&& plan.result is Completed <==> status is Completed
            &&& plan.result is Failed <==> status is Failed || status is Incomplete
            &&& plan.result is Cancelled <==> status is Cancelled
        }),
{
}

/// A terminal commit is idempotent: against the rows that it leaves behind,
/// the same observation finds its submission settled and is recognized as
/// already reconciled, so nothing is written again.
///
/// The binding check that every commit begins with accepts only rows of the
/// claim's own provider.
pub proof fn committed_terminal_replays(
    snapshot: CommitSnapshot,
    observation: AiOpenAiBackgroundRetrievalObservation,
    output: Option<PreparedProviderOutput>,
    actual: AiBudgetAmounts,
    expected_checkpoint_hash: Seq<char>,
    now: UtcTime,
    plan: TerminalPlan,
    later: ReplaySnapshot,
    submission_version: i64,
    budget_version: i64,
)
    requires
        observation.wf(),
        submission_binds(snapshot.current->0, observation.claimed()@),
        commit_fault(snapshot, observation, output, actual, expected_checkpoint_hash, now) is None,
        !receipt_contradicts(snapshot.matched, observation.observed().status),
        budget_planned(
            plan.budget,
            snapshot.graph.budget->0,
            snapshot.counters@,
            actual,
            observation.observed().usage->0.cached_input_tokens,
            now.second(),
        ),
        terminal_graph_planned(
            plan.graph,
            snapshot,
            observation.observed().status,
            output,
            now,
        ),
        committed_rows(later, snapshot, plan, submission_version, budget_version),
    ensures
        submission_binds(later.submission->0, observation.claimed()@),
        terminal_budget_bound(later.budget->0, observation.claimed()@),
        row_settled(later.submission->0),
        replay_fault(later, observation, actual, expected_checkpoint_hash) is None,
{
    let status = observation.observed().status;
    let before = snapshot.current->0;
    let submission = later.submission->0;
    let budget = later.budget->0;
    let run = later.run->0;
    let mapping = terminal_mapping(status)->0;
    let message_id = expected_message(submission.id, status);
    submission_state_round_trip(mapping.submission_state, submission.state@);
    assert(claim_binds(submission, observation.claimed()@));
    match output {
        Some(prepared) => {
            assert(output_binds(prepared, before));
            persisted_output_is_accepted(
                plan.graph.output->0,
                later.output,
                snapshot.graph.session->0,
                before,
                submission,
                snapshot.graph.run->0,
                run,
                prepared,
                snapshot.stream,
                expected_checkpoint_hash,
                now.second(),
            );
        },
        None => {},
    }
    assert(settled_row(submission, status, message_id));
    assert(budget_committed(
        budget,
        actual,
        observation.observed().usage->0.cached_input_tokens,
    ));
    assert(usage_matches(later.usage@[0], budget, submission));
    assert(run_ended(run, submission, mapping, message_id));
    assert(outcome_matches(later.outcomes@[0], submission, mapping));
    assert(processed_confirm(later.processed@, status));
}

/// A settled submission is final: it can be neither claimed nor closed as
/// expired, and no claim on it can be used.
pub proof fn settled_submission_is_final(
    row: AiProviderBackgroundSubmissionRecord,
    status: ProviderBackgroundStatus,
    message_id: Option<Uuid>,
    claim: ClaimDetails,
    now: UtcTime,
    second: int,
    maximum_retries: nat,
    owner_valid: bool,
)
    requires
        settled_row(row, status, message_id),
    ensures
        !claimable(row, second, maximum_retries, owner_valid),
        !expired(row, second, maximum_retries, owner_valid),
        claim_use_fault(row, claim, now) == Some(OrmErrorCode::Conflict),
{
}

/// A reservation is a claim's own exactly where it pays for the claim's attempt
/// and model at the provider, under a named price.
pub proof fn terminal_budgets_pay_for_their_claim(
    budget: AiBudgetReservationRecord,
    claim: ClaimDetails,
    submission: AiProviderBackgroundSubmissionRecord,
)
    ensures
        terminal_budget_bound(budget, claim) <==> {
            &&& budget.id == claim.budget_reservation_id
            &&& budget.session_id == claim.session_id && budget.run_id == claim.run_id
            &&& budget.attempt_id == claim.attempt_id
            &&& budget.lease_generation == claim.original_lease_generation
            &&& budget.provider_kind@ == "openai"@
            &&& budget.provider_model@ == claim.provider_model@
            &&& bounded_text(budget.pricing_policy_version@, 256)
        },
        submission_binds(submission, claim) ==> {
            &&& submission.provider_kind@ == "openai"@
            &&& submission.id == claim.submission_id
            &&& submission.session_id == claim.session_id && submission.run_id == claim.run_id
            &&& submission.attempt_id == claim.attempt_id
            &&& submission.lease_generation == claim.original_lease_generation
            &&& submission.provider_model@ == claim.provider_model@
            &&& submission.provider_response_id is Some && submission.provider_response_id->0@
                == claim.provider_response_id@
            &&& submission.request_hash@ == claim.request_hash@
            &&& submission.budget_reservation_id == claim.budget_reservation_id
        },
{
}

/// What is committed is what was reported: the input and output tokens of one
/// run, which used neither tools nor images.
pub proof fn settled_usage_is_what_was_reported(
    actual: AiBudgetAmounts,
    usage: ProviderBackgroundUsage,
)
    ensures
        usage_settled(actual, usage) <==> actual.input_tokens == usage.input_tokens
            && actual.output_tokens == usage.output_tokens && actual.tool_units == 0
            && actual.image_units == 0 && actual.runs == 1,
{
}

/// A row counts as settled exactly where it says so: completed, failed, or
/// cancelled.
pub proof fn settled_rows_say_so(submission: AiProviderBackgroundSubmissionRecord)
    ensures
        row_settled(submission) <==> submission.state@ == "completed"@ || submission.state@
            == "failed"@ || submission.state@ == "cancelled"@,
{
    reveal_strlit("completed");
    reveal_strlit("failed");
    reveal_strlit("cancelled");
    assert("completed"@.len() == 9 && "failed"@.len() == 6 && "cancelled"@.len() == 9);
    assert("completed"@[1] == 'o' && "cancelled"@[1] == 'a');
    submission_states_are_spelled_so(submission.state@);
    submission_states_are_spelled_so("completed"@);
    submission_states_are_spelled_so("failed"@);
    submission_states_are_spelled_so("cancelled"@);
}

/// A matched receipt contradicts a retrieved status exactly where it is not of
/// that status's kind.
pub proof fn receipts_contradict_other_statuses(
    matched: MatchedBackgroundReceipt,
    status: ProviderBackgroundStatus,
)
    requires
        status.terminal(),
    ensures
        !receipt_contradicts(None, status),
        receipt_contradicts(Some(matched), status) <==> matched.provider_event_kind@
            != "response_"@ + match status {
            ProviderBackgroundStatus::Completed => "completed"@,
            ProviderBackgroundStatus::Failed => "failed"@,
            ProviderBackgroundStatus::Incomplete => "incomplete"@,
            _ => "cancelled"@,
        },
{
    receipt_kinds_name_their_status(status, matched.provider_event_kind@);
    statuses_are_spelled_so(status, matched.provider_event_kind@);
}

/// A settled row is held by nobody, says the status and why, when, and with
/// which message it was settled.
pub proof fn settled_rows_keep_the_status(
    submission: AiProviderBackgroundSubmissionRecord,
    status: ProviderBackgroundStatus,
    message_id: Option<Uuid>,
)
    requires
        status.terminal(),
        settled_row(submission, status, message_id),
    ensures
        submission.state@ == match status {
            ProviderBackgroundStatus::Completed => "completed"@,
            ProviderBackgroundStatus::Cancelled => "cancelled"@,
            _ => "failed"@,
        },
        submission.provider_status is Some && submission.provider_status->0@ == match status {
            ProviderBackgroundStatus::Completed => "completed"@,
            ProviderBackgroundStatus::Failed => "failed"@,
            ProviderBackgroundStatus::Incomplete => "incomplete"@,
            _ => "cancelled"@,
        },
        submission.safe_error_code is None <==> status is Completed,
        submission.reconciled_at is Some,
        submission.terminal_message_id == message_id,
        submission.reconciliation_owner is None,
        submission.reconciliation_lease_expires_at is None,
        submission.reconciliation_next_attempt_at is None,
{
    statuses_are_spelled_so(status, submission.state@);
    submission_states_are_spelled_so(submission.state@);
}

/// A terminal commit ends everything about its submission in one way: the run
/// and the attempt end as the response did, a completed response alone leaves
/// a message, and the run's last checkpoint is that message.
pub proof fn commits_end_the_whole_submission(
    plan: TerminalGraphPlan,
    snapshot: CommitSnapshot,
    status: ProviderBackgroundStatus,
    output: Option<PreparedProviderOutput>,
    now: UtcTime,
)
    requires
        status.terminal(),
        terminal_graph_planned(plan, snapshot, status, output, now),
    ensures
        plan.output is Some <==> output is Some,
        plan.run.run_id == snapshot.graph.run->0.id,
        plan.run.expected_row_version == snapshot.graph.run->0.row_version,
        plan.run.expected_state is WaitingProvider,
        plan.run.state is Completed <==> status is Completed,
        plan.run.state is Cancelled <==> status is Cancelled,
        plan.run.state is Failed <==> status is Failed || status is Incomplete,
        plan.run.error_code is None <==> status is Completed,
        plan.run.latest_checkpoint_id is Some <==> output is Some,
        output is Some ==> plan.run.latest_checkpoint_id->0 == output->0.message_id,
        plan.submission.expected_row_version == snapshot.current->0.row_version,
        plan.submission.expected_state is Reconciling,
        plan.submission.next.id == snapshot.current->0.id,
        plan.submission.next.run_id == snapshot.current->0.run_id,
        plan.submission.next.reconciled_at is Some && plan.submission.next.reconciled_at->0
            == now.second(),
        plan.submission.next.terminal_message_id is Some <==> output is Some,
        output is Some ==> plan.submission.next.terminal_message_id->0 == output->0.message_id,
        plan.receipt is Some <==> snapshot.matched is Some,
        plan.duplicates@.len() == snapshot.further@.len(),
        plan.outcome.attempt_id == snapshot.current->0.attempt_id,
        plan.outcome.run_id == snapshot.current->0.run_id,
        plan.outcome.lease_generation == snapshot.current->0.lease_generation,
        plan.outcome.final_state@ == match status {
            ProviderBackgroundStatus::Completed => "completed"@,
            ProviderBackgroundStatus::Cancelled => "cancelled"@,
            _ => "failed"@,
        },
        plan.outcome.finished_at == now.second(),
        plan.result is Completed <==> status is Completed,
        plan.result is Cancelled <==> status is Cancelled,
        plan.result is Failed <==> status is Failed || status is Incomplete,
        status is Completed && output is Some ==> plan.result->message_id == output->0.message_id,
{
    terminal_statuses_settle_alike(status);
}

/// The local rows can be committed exactly where the status is terminal, there
/// is output for a completed response and for no other, the output and the
/// matched receipt are the submission's own, and every further receipt can be
/// closed.
pub proof fn commits_need_output_for_completion_alone(
    snapshot: CommitSnapshot,
    status: ProviderBackgroundStatus,
    output: Option<PreparedProviderOutput>,
    expected_checkpoint_hash: Seq<char>,
)
    ensures
        terminal_graph_fault(snapshot, status, output, expected_checkpoint_hash) is None <==> {
            &&& !(status is Queued) && !(status is InProgress)
            &&& status is Completed <==> output is Some
            &&& output is Some ==> output_fault(
                snapshot.graph.session->0,
                snapshot.current->0,
                output->0,
                expected_checkpoint_hash,
                snapshot.stream,
            ) is None
            &&& snapshot.matched is Some ==> receipt_commit_fault(
                snapshot.current->0,
                snapshot.receipt,
                snapshot.matched->0,
                status,
            ) is None
            &&& duplicates_fault(snapshot.current->0, snapshot.further@, 64) is None
        },
{
}

/// A claim is committed exactly where it can be used, its rows belong together
/// and are those that were claimed; a contradicting receipt then closes it,
/// and otherwise its own uncertain budget is committed with the reported usage.
pub proof fn commits_need_a_usable_claim(
    snapshot: CommitSnapshot,
    observation: AiOpenAiBackgroundRetrievalObservation,
    output: Option<PreparedProviderOutput>,
    actual: AiBudgetAmounts,
    expected_checkpoint_hash: Seq<char>,
    now: UtcTime,
)
    ensures
        commit_fault(snapshot, observation, output, actual, expected_checkpoint_hash, now) is None
            <==> {
            let claim = observation.claimed()@;
            let status = observation.observed().status;
            let usage = observation.observed().usage;
            &&& snapshot.current is Some
            &&& claim_use_fault(snapshot.current->0, claim, now) is None
            &&& graph_fault(snapshot.graph, snapshot.current->0) is None
            &&& snapshot_agrees(claim, snapshot.graph)
            &&& receipt_contradicts(snapshot.matched, status) ==> close_fault(
                snapshot.graph.run,
                snapshot.current->0,
                snapshot.bound@,
            ) is None
            &&& !receipt_contradicts(snapshot.matched, status) ==> {
                &&& terminal_budget_bound(snapshot.graph.budget->0, claim)
                &&& usage is Some
                &&& background_commit_fault(
                    snapshot.graph.budget->0,
                    snapshot.counters@,
                    actual,
                    usage->0.cached_input_tokens,
                ) is None
                &&& terminal_graph_fault(
                    snapshot,
                    status,
                    output,
                    expected_checkpoint_hash,
                ) is None
            }
        },
{
}

/// A durable terminal graph is recognized exactly where all of it is there and
/// is of this observation: the settled row, the committed budget with the
/// reported usage and its one entry, the ended run and attempt, the output of
/// a completed response, and no receipt that says otherwise.
pub proof fn replays_recognize_the_whole_graph(
    snapshot: ReplaySnapshot,
    observation: AiOpenAiBackgroundRetrievalObservation,
    actual: AiBudgetAmounts,
    expected_checkpoint_hash: Seq<char>,
)
    ensures
        replay_fault(snapshot, observation, actual, expected_checkpoint_hash) is None <==> {
            let claim = observation.claimed()@;
            let status = observation.observed().status;
            let usage = observation.observed().usage;
            let submission = snapshot.submission->0;
            let mapping = terminal_mapping(status)->0;
            let message_id = expected_message(submission.id, status);
            &&& snapshot.submission is Some && snapshot.budget is Some && snapshot.run is Some
            &&& usage is Some
            &&& !(status is Queued) && !(status is InProgress)
            &&& submission_binds(submission, claim)
            &&& settled_row(submission, status, message_id)
            &&& submission.retrieval_egress_decision_id is Some
            &&& terminal_budget_bound(snapshot.budget->0, claim)
            &&& budget_committed(snapshot.budget->0, actual, usage->0.cached_input_tokens)
            &&& snapshot.usage@.len() == 1 && usage_matches(
                snapshot.usage@[0],
                snapshot.budget->0,
                submission,
            )
            &&& run_ended(snapshot.run->0, submission, mapping, message_id)
            &&& snapshot.outcomes@.len() == 1 && outcome_matches(
                snapshot.outcomes@[0],
                submission,
                mapping,
            )
            &&& status is Completed ==> existing_output_fault(
                snapshot.output,
                submission,
                snapshot.run->0,
                message_id->0,
                expected_checkpoint_hash,
            ) is None
            &&& processed_confirm(snapshot.processed@, status)
        },
        expected_message(snapshot.submission->0.id, observation.observed().status) is Some
            <==> observation.observed().status is Completed,
{
}

/// What a durable terminal graph says of its budget, its usage entry, its run,
/// its attempt, and its receipts, column by column.
pub proof fn durable_graphs_say_what_was_done(
    budget: AiBudgetReservationRecord,
    usage: AiUsageEntryRecord,
    run: AiRunRecord,
    outcome: AiRunAttemptOutcomeRecord,
    processed: Seq<AiProviderWebhookReceiptRecord>,
    submission: AiProviderBackgroundSubmissionRecord,
    mapping: TerminalMapping,
    message_id: Option<Uuid>,
    status: ProviderBackgroundStatus,
    actual: AiBudgetAmounts,
    cached: u64,
)
    requires
        storable(actual),
        cached <= i64::MAX,
    ensures
        budget_committed(budget, actual, cached) <==> {
            &&& budget.state@ == "committed"@ && budget.reconciled_at is Some
            &&& loaded_actual(budget.actual) == Ok::<Option<AiBudgetAmounts>, ErrorModel>(
                Some(actual),
            )
            &&& budget.actual_cached_input_tokens is Some && budget.actual_cached_input_tokens->0
                == cached
        },
        usage_matches(usage, budget, submission) <==> {
            &&& usage.run_id is Some && usage.run_id->0 == submission.run_id
            &&& usage.provider_kind@ == "openai"@
            &&& usage.provider_model@ == submission.provider_model@
            &&& budget.actual.input_tokens is Some && budget.actual.input_tokens->0
                == usage.input_tokens
            &&& budget.actual_cached_input_tokens is Some && budget.actual_cached_input_tokens->0
                == usage.cached_input_tokens
            &&& budget.actual.output_tokens is Some && budget.actual.output_tokens->0
                == usage.output_tokens
            &&& budget.actual.tool_units is Some && budget.actual.tool_units->0 == usage.tool_units
            &&& budget.actual.image_units is Some && budget.actual.image_units->0
                == usage.image_units
            &&& budget.actual.cost_microunits == usage.cost_microunits
        },
        run_ended(run, submission, mapping, message_id) <==> {
            &&& run.state@ == run_state_text(mapping.run_state)
            &&& run.attempt_id is Some && run.attempt_id->0 == submission.attempt_id
            &&& run.lease_generation == submission.lease_generation
            &&& run.lease_owner is None && run.lease_expires_at is None && run.lease_heartbeat_at
                is None && run.next_attempt_at is None
            &&& mapping.stored_reason is None ==> run.error_code is None
            &&& mapping.stored_reason is Some ==> run.error_code is Some && run.error_code->0@
                == reason_text(mapping.stored_reason->0)
            &&& run.latest_checkpoint_id == message_id
        },
        outcome_matches(outcome, submission, mapping) <==> {
            &&& outcome.run_id == submission.run_id
            &&& outcome.lease_generation == submission.lease_generation
            &&& outcome.final_state@ == run_state_text(mapping.run_state)
            &&& text_option(outcome.provider_response_id) == text_option(
                submission.provider_response_id,
            )
        },
        processed_confirm(processed, status) <==> {
            ||| processed.len() == 0
            ||| processed.len() == 1 && processed[0].processed_at is Some
                && processed[0].provider_event_kind@ == receipt_kind_text(status)
        },
{
}

/// A commit fails as not found where the row is gone, as a conflict where the
/// claim, its rows, or its budget are not what they were, or the status is not
/// terminal, and as a fault of the store where output and status disagree.
pub proof fn commit_faults_say_what_is_wrong(
    snapshot: CommitSnapshot,
    observation: AiOpenAiBackgroundRetrievalObservation,
    output: Option<PreparedProviderOutput>,
    actual: AiBudgetAmounts,
    hash: Seq<char>,
    now: UtcTime,
)
    ensures
        ({
            let claim = observation.claimed()@;
            let status = observation.observed().status;
            let current = snapshot.current->0;
            let claimed = commit_claim_fault(snapshot.current, snapshot.graph, claim, now);
            let fault = commit_fault(snapshot, observation, output, actual, hash, now);
            let graph = terminal_graph_fault(snapshot, status, output, hash);
            &&& snapshot.current is None ==> claimed == Some(OrmErrorCode::NotFound)
            &&& snapshot.current is Some && claim_use_fault(current, claim, now) is None
                && graph_fault(snapshot.graph, current) is None && !snapshot_agrees(
                claim,
                snapshot.graph,
            ) ==> claimed == Some(OrmErrorCode::Conflict)
            &&& claimed is Some ==> fault == claimed
            &&& claimed is None && !receipt_contradicts(snapshot.matched, status)
                && !terminal_budget_bound(snapshot.graph.budget->0, claim) ==> fault == Some(
                OrmErrorCode::Conflict,
            )
            &&& claimed is None && !receipt_contradicts(snapshot.matched, status)
                && terminal_budget_bound(snapshot.graph.budget->0, claim)
                && observation.observed().usage is None ==> fault == Some(
                OrmErrorCode::InternalError,
            )
            &&& status is Queued || status is InProgress ==> graph == Some(OrmErrorCode::Conflict)
            &&& status.terminal() && !(status is Completed <==> output is Some) ==> graph == Some(
                OrmErrorCode::InternalError,
            )
        }),
{
}

/// A durable graph is not recognized as not found where a row is missing, and
/// as a conflict where one of them is not of this observation.
pub proof fn replay_faults_say_what_is_wrong(
    snapshot: ReplaySnapshot,
    observation: AiOpenAiBackgroundRetrievalObservation,
    actual: AiBudgetAmounts,
    hash: Seq<char>,
)
    ensures
        ({
            let fault = replay_fault(snapshot, observation, actual, hash);
            let status = observation.observed().status;
            let submission = snapshot.submission->0;
            let claim = observation.claimed()@;
            &&& snapshot.submission is None ==> fault == Some(OrmErrorCode::NotFound)
            &&& snapshot.submission is Some && !(submission_binds(submission, claim)
                && status.terminal() && settled_row(
                submission,
                status,
                expected_message(submission.id, status),
            ) && submission.retrieval_egress_decision_id is Some) ==> fault == Some(
                OrmErrorCode::Conflict,
            )
            &&& fault is Some && snapshot.submission is Some && snapshot.budget is Some
                && snapshot.run is Some && observation.observed().usage is Some && !(status
                is Completed) ==> fault == Some(OrmErrorCode::Conflict)
        }),
{
}

/// A terminal commit settles every counter of the reservation, records the
/// usage under the name of the reservation, and marks the reservation
/// committed.
pub proof fn terminal_budgets_settle_every_counter(
    plan: BackgroundBudgetCommit,
    budget: AiBudgetReservationRecord,
    counters: Seq<Option<AiBudgetCounterRecord>>,
    actual: AiBudgetAmounts,
    cached: u64,
    second: int,
    k: int,
)
    requires
        budget_planned(plan, budget, counters, actual, cached, second),
        0 <= k < counters.len(),
    ensures
        plan.counters@.len() == counters.len(),
        counter_settled(counters[k], as_amounts(budget.reserved), Some(actual), plan.counters@[k]),
        plan.usage.id == digest_uuid(
            sha256_digest(background_usage_message(budget.id)),
        ) as u128,
        plan.usage.budget_reservation_id == budget.id,
        plan.reservation.state@ == "committed"@,
{
}

} // verus!
