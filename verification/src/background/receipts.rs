//! Webhook receipts as evidence about a submission.
//!
//! A receipt never grants authority. It is matched to at most one submission,
//! confirms or contradicts the retrieved status, and is closed with it.

use crate::background::claim::MatchedBackgroundReceipt;
use crate::background::identity::{BackgroundAudit, BackgroundChange, audited, background_audit};
use crate::background::rows::{AiProviderBackgroundSubmissionRecord, AiProviderWebhookReceiptRecord};
use crate::background::state::{
    BackgroundReason, ProviderBackgroundStatus, expected_receipt_kind, is_terminal_receipt_kind,
    reason_text, receipt_kind_text, receipt_kinds_name_their_status, status_text,
    terminal_receipt_kind,
};
use crate::clock::UtcTime;
use crate::digest::Uuid;
use crate::egress::same_id_option;
use crate::error::OrmErrorCode;
use crate::text::{
    blank, bounded_text, byte_len, is_bounded_text, same_text, same_text_option, text_option,
};
use vstd::prelude::*;

verus! {

/// Lifecycle of a receipt.
#[derive(Clone, Copy, Debug, PartialEq, Eq, Structural)]
pub enum ReceiptState {
    PendingReconciliation,
    MatchedPending,
    Processed,
    DuplicateTerminal,
    RecoveryRequired,
}

/// Persisted spelling of a receipt state.
pub open spec fn receipt_state_text(state: ReceiptState) -> Seq<char> {
    match state {
        ReceiptState::PendingReconciliation => "pending_reconciliation"@,
        ReceiptState::MatchedPending => "matched_pending"@,
        ReceiptState::Processed => "processed"@,
        ReceiptState::DuplicateTerminal => "duplicate_terminal"@,
        ReceiptState::RecoveryRequired => "recovery_required"@,
    }
}

impl ReceiptState {
    /// Persisted spelling.
    pub fn as_str(self) -> (text: &'static str)
        ensures
            text@ == receipt_state_text(self),
    {
        match self {
            ReceiptState::PendingReconciliation => "pending_reconciliation",
            ReceiptState::MatchedPending => "matched_pending",
            ReceiptState::Processed => "processed",
            ReceiptState::DuplicateTerminal => "duplicate_terminal",
            ReceiptState::RecoveryRequired => "recovery_required",
        }
    }
}

/// A receipt together with the key and identity that its profile and event
/// determine.
#[derive(Debug, PartialEq, Eq)]
pub struct ReceiptCandidate {
    pub receipt: AiProviderWebhookReceiptRecord,
    pub expected_key: String,
    pub expected_id: Uuid,
}

/// Selection of receipts. Rows come by reception, then by event identifier,
/// then by identity.
#[derive(Debug, PartialEq, Eq)]
pub struct ReceiptQuery {
    pub provider_kind: String,
    pub provider_profile_id: String,
    pub provider_response_id: String,
    pub state: ReceiptState,
    /// Run and attempt that the receipt is bound to, where that is asked.
    pub bound_to: Option<(Uuid, Uuid)>,
}

/// The receipts in this state that are about the submission's response; where
/// `bound` holds, only those bound to its run and attempt.
pub fn background_receipt_query(
    submission: &AiProviderBackgroundSubmissionRecord,
    provider_response_id: &str,
    state: ReceiptState,
    bound: bool,
) -> (query: ReceiptQuery)
    ensures
        query.provider_kind@ == "openai"@,
        query.provider_profile_id == submission.provider_profile_id,
        query.provider_response_id@ == provider_response_id@,
        query.state == state,
        query.bound_to == if bound {
            Some((submission.run_id, submission.attempt_id))
        } else {
            None
        },
{
    ReceiptQuery {
        provider_kind: "openai".to_owned(),
        provider_profile_id: submission.provider_profile_id.clone(),
        provider_response_id: provider_response_id.to_owned(),
        state,
        bound_to: if bound {
            Some((submission.run_id, submission.attempt_id))
        } else {
            None
        },
    }
}

/// Whether the receipt is a verified, unprocessed terminal event about the
/// submission's response, in this state, and bound to the submission exactly
/// where `matched` says so.
pub open spec fn receipt_valid(
    candidate: ReceiptCandidate,
    submission: AiProviderBackgroundSubmissionRecord,
    state: ReceiptState,
    matched: bool,
) -> bool {
    let receipt = candidate.receipt;
    &&& submission.provider_response_id is Some
    &&& receipt.id == candidate.expected_id
    &&& receipt.receipt_key@ == candidate.expected_key@
    &&& receipt.provider_kind@ == "openai"@
    &&& receipt.provider_profile_id@ == submission.provider_profile_id@
    &&& bounded_text(receipt.provider_event_id@, 200)
    &&& terminal_receipt_kind(receipt.provider_event_kind@)
    &&& receipt.provider_created_at > 0
    &&& text_option(receipt.provider_response_id) == text_option(submission.provider_response_id)
    &&& receipt.signature_verified
    &&& receipt.state@ == receipt_state_text(state)
    &&& receipt.safe_error_code is None
    &&& receipt.received_at > 0
    &&& receipt.processed_at is None
    &&& receipt.row_version >= 0
    &&& if matched {
        receipt.run_id == Some(submission.run_id) && receipt.attempt_id == Some(
            submission.attempt_id,
        )
    } else {
        receipt.run_id is None && receipt.attempt_id is None
    }
}

/// Accepts exactly the valid receipts.
pub fn validate_background_receipt(
    candidate: &ReceiptCandidate,
    submission: &AiProviderBackgroundSubmissionRecord,
    state: ReceiptState,
    matched: bool,
) -> (result: Result<(), OrmErrorCode>)
    ensures
        result == if receipt_valid(*candidate, *submission, state, matched) {
            Ok::<(), OrmErrorCode>(())
        } else {
            Err(OrmErrorCode::InternalError)
        },
{
    let receipt = &candidate.receipt;
    let binding_valid: bool = if matched {
        same_id_option(receipt.run_id, Some(submission.run_id)) && same_id_option(
            receipt.attempt_id,
            Some(submission.attempt_id),
        )
    } else {
        receipt.run_id.is_none() && receipt.attempt_id.is_none()
    };
    if submission.provider_response_id.is_some() && receipt.id == candidate.expected_id
        && same_text(receipt.receipt_key.as_str(), candidate.expected_key.as_str()) && same_text(
        receipt.provider_kind.as_str(),
        "openai",
    ) && same_text(
        receipt.provider_profile_id.as_str(),
        submission.provider_profile_id.as_str(),
    ) && is_bounded_text(receipt.provider_event_id.as_str(), 200) && is_terminal_receipt_kind(
        receipt.provider_event_kind.as_str(),
    ) && receipt.provider_created_at > 0 && same_text_option(
        &receipt.provider_response_id,
        &submission.provider_response_id,
    ) && receipt.signature_verified && same_text(receipt.state.as_str(), state.as_str())
        && receipt.safe_error_code.is_none() && receipt.received_at > 0
        && receipt.processed_at.is_none() && receipt.row_version >= 0 && binding_valid {
        Ok(())
    } else {
        Err(OrmErrorCode::InternalError)
    }
}

/// One fenced change of a receipt: it must still be in the expected state, and
/// still bound (or unbound, where it is pending) as it was read.
#[derive(Debug, PartialEq, Eq)]
pub struct ReceiptWrite {
    pub id: Uuid,
    pub provider_kind: String,
    pub expected_state: ReceiptState,
    pub state: ReceiptState,
    pub run_id: Uuid,
    pub attempt_id: Uuid,
    pub safe_error_code: Option<BackgroundReason>,
    pub processed_at: Option<i64>,
}

/// Whether the write moves this receipt of the submission between the states.
pub open spec fn receipt_written(
    write: ReceiptWrite,
    receipt: AiProviderWebhookReceiptRecord,
    submission: AiProviderBackgroundSubmissionRecord,
    expected_state: ReceiptState,
    state: ReceiptState,
    reason: Option<BackgroundReason>,
    processed_at: Option<int>,
) -> bool {
    &&& write.id == receipt.id
    &&& write.provider_kind == receipt.provider_kind
    &&& write.expected_state == expected_state
    &&& write.state == state
    &&& write.run_id == submission.run_id
    &&& write.attempt_id == submission.attempt_id
    &&& write.safe_error_code == reason
    &&& match (write.processed_at, processed_at) {
        (Some(at), Some(second)) => at == second,
        (None, None) => true,
        _ => false,
    }
}

/// What a receipt is known by after it was matched.
pub fn matched_receipt(receipt: &AiProviderWebhookReceiptRecord) -> (matched:
    MatchedBackgroundReceipt)
    ensures
        matched.id == receipt.id,
        matched.provider_kind == receipt.provider_kind,
        matched.provider_event_kind == receipt.provider_event_kind,
{
    MatchedBackgroundReceipt {
        id: receipt.id,
        provider_kind: receipt.provider_kind.clone(),
        provider_event_kind: receipt.provider_event_kind.clone(),
    }
}

/// How a receipt is matched to a submission.
#[derive(Debug, PartialEq, Eq)]
pub enum ReceiptMatch {
    /// No receipt is known.
    Absent,
    /// A receipt was matched before.
    Existing(MatchedBackgroundReceipt),
    /// A pending receipt is bound now.
    Bind { write: ReceiptWrite, audit: BackgroundAudit, matched: MatchedBackgroundReceipt },
}

/// Why no receipt can be matched, in the order of checks.
pub open spec fn match_fault(
    submission: AiProviderBackgroundSubmissionRecord,
    matched: Seq<ReceiptCandidate>,
    pending: Seq<ReceiptCandidate>,
) -> Option<OrmErrorCode> {
    if submission.provider_response_id is None || matched.len() > 1 {
        Some(OrmErrorCode::InternalError)
    } else if matched.len() == 1 {
        if receipt_valid(matched[0], submission, ReceiptState::MatchedPending, true) {
            None
        } else {
            Some(OrmErrorCode::InternalError)
        }
    } else if pending.len() == 0 {
        None
    } else if !receipt_valid(pending[0], submission, ReceiptState::PendingReconciliation, false)
        || submission.reconciliation_owner is None {
        Some(OrmErrorCode::InternalError)
    } else {
        None
    }
}

/// Matches at most one receipt to a submission that is being reconciled.
///
/// `matched` are the receipts already bound to it, `pending` the unbound ones
/// about its response, oldest first.
pub fn match_background_receipt(
    submission: &AiProviderBackgroundSubmissionRecord,
    matched: &Vec<ReceiptCandidate>,
    pending: &Vec<ReceiptCandidate>,
) -> (result: Result<ReceiptMatch, OrmErrorCode>)
    ensures
        match result {
            Err(code) => match_fault(*submission, matched@, pending@) == Some(code),
            Ok(found) => {
                &&& match_fault(*submission, matched@, pending@) is None
                &&& match found {
                    ReceiptMatch::Absent => matched@.len() == 0 && pending@.len() == 0,
                    ReceiptMatch::Existing(receipt) => matched@.len() == 1 && receipt.id
                        == matched@[0].receipt.id && receipt.provider_kind
                        == matched@[0].receipt.provider_kind && receipt.provider_event_kind
                        == matched@[0].receipt.provider_event_kind,
                    ReceiptMatch::Bind { write, audit, matched: receipt } => {
                        let row = pending@[0].receipt;
                        &&& matched@.len() == 0 && pending@.len() > 0
                        &&& receipt_written(
                            write,
                            row,
                            *submission,
                            ReceiptState::PendingReconciliation,
                            ReceiptState::MatchedPending,
                            None,
                            None,
                        )
                        &&& audited(
                            audit,
                            BackgroundChange::MatchReceipt,
                            submission.reconciliation_owner->0@,
                            row.id,
                            submission.id,
                            submission.run_id,
                            "provider-background-reconciliation-v1"@,
                        )
                        &&& receipt.id == row.id
                        &&& receipt.provider_kind == row.provider_kind
                        &&& receipt.provider_event_kind == row.provider_event_kind
                    },
                }
            },
        },
{
    if submission.provider_response_id.is_none() || matched.len() > 1 {
        return Err(OrmErrorCode::InternalError);
    }
    if matched.len() == 1 {
        match validate_background_receipt(
            &matched[0],
            submission,
            ReceiptState::MatchedPending,
            true,
        ) {
            Ok(()) => {},
            Err(code) => return Err(code),
        }
        return Ok(ReceiptMatch::Existing(matched_receipt(&matched[0].receipt)));
    }
    if pending.len() == 0 {
        return Ok(ReceiptMatch::Absent);
    }
    match validate_background_receipt(
        &pending[0],
        submission,
        ReceiptState::PendingReconciliation,
        false,
    ) {
        Ok(()) => {},
        Err(code) => return Err(code),
    }
    let owner: &str = match &submission.reconciliation_owner {
        Some(owner) => owner.as_str(),
        None => return Err(OrmErrorCode::InternalError),
    };
    let receipt = &pending[0].receipt;
    let write = ReceiptWrite {
        id: receipt.id,
        provider_kind: receipt.provider_kind.clone(),
        expected_state: ReceiptState::PendingReconciliation,
        state: ReceiptState::MatchedPending,
        run_id: submission.run_id,
        attempt_id: submission.attempt_id,
        safe_error_code: None,
        processed_at: None,
    };
    let audit = background_audit(
        BackgroundChange::MatchReceipt,
        owner,
        receipt.id,
        submission.id,
        submission.run_id,
        "provider-background-reconciliation-v1",
    );
    Ok(ReceiptMatch::Bind { write, audit, matched: matched_receipt(receipt) })
}

/// Why the matched receipt cannot be closed with its submission.
pub open spec fn receipt_closing_fault(
    submission: AiProviderBackgroundSubmissionRecord,
    matched: Seq<ReceiptCandidate>,
) -> Option<OrmErrorCode> {
    if submission.provider_response_id is None || matched.len() > 1 {
        Some(OrmErrorCode::InternalError)
    } else if matched.len() == 1 && !receipt_valid(
        matched[0],
        submission,
        ReceiptState::MatchedPending,
        true,
    ) {
        Some(OrmErrorCode::InternalError)
    } else {
        None
    }
}

/// Closes the matched receipt, if any, with a submission that requires
/// recovery.
pub fn close_matched_receipt_recovery(
    submission: &AiProviderBackgroundSubmissionRecord,
    matched: &Vec<ReceiptCandidate>,
    reason: BackgroundReason,
    now: UtcTime,
) -> (result: Result<Option<ReceiptWrite>, OrmErrorCode>)
    requires
        now.wf(),
    ensures
        match result {
            Err(code) => receipt_closing_fault(*submission, matched@) == Some(code),
            Ok(None) => receipt_closing_fault(*submission, matched@) is None && matched@.len() == 0,
            Ok(Some(write)) => {
                &&& receipt_closing_fault(*submission, matched@) is None
                &&& matched@.len() == 1
                &&& receipt_written(
                    write,
                    matched@[0].receipt,
                    *submission,
                    ReceiptState::MatchedPending,
                    ReceiptState::RecoveryRequired,
                    Some(reason),
                    Some(now.second()),
                )
            },
        },
{
    if submission.provider_response_id.is_none() || matched.len() > 1 {
        return Err(OrmErrorCode::InternalError);
    }
    if matched.len() == 0 {
        return Ok(None);
    }
    match validate_background_receipt(&matched[0], submission, ReceiptState::MatchedPending, true) {
        Ok(()) => {},
        Err(code) => return Err(code),
    }
    let receipt = &matched[0].receipt;
    Ok(
        Some(
            ReceiptWrite {
                id: receipt.id,
                provider_kind: receipt.provider_kind.clone(),
                expected_state: ReceiptState::MatchedPending,
                state: ReceiptState::RecoveryRequired,
                run_id: submission.run_id,
                attempt_id: submission.attempt_id,
                safe_error_code: Some(reason),
                processed_at: Some(now.unix_timestamp()),
            },
        ),
    )
}

/// Why the matched receipt cannot be committed with a terminal status.
pub open spec fn receipt_commit_fault(
    submission: AiProviderBackgroundSubmissionRecord,
    candidate: Option<ReceiptCandidate>,
    matched: MatchedBackgroundReceipt,
    status: ProviderBackgroundStatus,
) -> Option<OrmErrorCode> {
    if candidate is None {
        Some(OrmErrorCode::NotFound)
    } else if !receipt_valid(candidate->0, submission, ReceiptState::MatchedPending, true) {
        Some(OrmErrorCode::InternalError)
    } else if candidate->0.receipt.provider_event_kind@ != receipt_kind_text(status)
        || candidate->0.receipt.provider_event_kind@ != matched.provider_event_kind@ {
        Some(OrmErrorCode::Conflict)
    } else {
        None
    }
}

/// Marks the matched receipt processed, where it confirms the status.
/// `candidate` is the row with the matched receipt's identity.
pub fn commit_matched_terminal_receipt(
    submission: &AiProviderBackgroundSubmissionRecord,
    candidate: &Option<ReceiptCandidate>,
    matched: &MatchedBackgroundReceipt,
    status: ProviderBackgroundStatus,
    now: UtcTime,
) -> (result: Result<ReceiptWrite, OrmErrorCode>)
    requires
        now.wf(),
    ensures
        match result {
            Err(code) => receipt_commit_fault(*submission, *candidate, *matched, status) == Some(
                code,
            ),
            Ok(write) => receipt_commit_fault(*submission, *candidate, *matched, status) is None
                && receipt_written(
                write,
                candidate->0.receipt,
                *submission,
                ReceiptState::MatchedPending,
                ReceiptState::Processed,
                None,
                Some(now.second()),
            ),
        },
{
    let found: &ReceiptCandidate = match candidate {
        Some(found) => found,
        None => return Err(OrmErrorCode::NotFound),
    };
    match validate_background_receipt(found, submission, ReceiptState::MatchedPending, true) {
        Ok(()) => {},
        Err(code) => return Err(code),
    }
    let receipt = &found.receipt;
    if !same_text(receipt.provider_event_kind.as_str(), expected_receipt_kind(status))
        || !same_text(receipt.provider_event_kind.as_str(), matched.provider_event_kind.as_str()) {
        return Err(OrmErrorCode::Conflict);
    }
    Ok(
        ReceiptWrite {
            id: receipt.id,
            provider_kind: receipt.provider_kind.clone(),
            expected_state: ReceiptState::MatchedPending,
            state: ReceiptState::Processed,
            run_id: submission.run_id,
            attempt_id: submission.attempt_id,
            safe_error_code: None,
            processed_at: Some(now.unix_timestamp()),
        },
    )
}

/// Whether the write closes a further receipt about a settled response: as a
/// duplicate where it agrees with the status, for recovery where it does not.
pub open spec fn duplicate_closed(
    write: ReceiptWrite,
    receipt: AiProviderWebhookReceiptRecord,
    submission: AiProviderBackgroundSubmissionRecord,
    status: ProviderBackgroundStatus,
    second: int,
) -> bool {
    let agrees = receipt.provider_event_kind@ == receipt_kind_text(status);
    receipt_written(
        write,
        receipt,
        submission,
        ReceiptState::PendingReconciliation,
        if agrees {
            ReceiptState::DuplicateTerminal
        } else {
            ReceiptState::RecoveryRequired
        },
        if agrees {
            None
        } else {
            Some(BackgroundReason::TerminalReceiptConflict)
        },
        Some(second),
    )
}

/// Why the further receipts cannot be closed.
pub open spec fn duplicates_fault(
    submission: AiProviderBackgroundSubmissionRecord,
    receipts: Seq<ReceiptCandidate>,
    maximum: nat,
) -> Option<OrmErrorCode> {
    if submission.provider_response_id is None || receipts.len() > maximum || exists|i: int|
        0 <= i < receipts.len() && !receipt_valid(
            #[trigger] receipts[i],
            submission,
            ReceiptState::PendingReconciliation,
            false,
        ) {
        Some(OrmErrorCode::InternalError)
    } else {
        None
    }
}

/// Closes every further pending receipt about a response that is being
/// settled. `receipts` are at most one more than `maximum`.
pub fn close_duplicate_terminal_receipts(
    submission: &AiProviderBackgroundSubmissionRecord,
    receipts: &Vec<ReceiptCandidate>,
    status: ProviderBackgroundStatus,
    now: UtcTime,
    maximum: usize,
) -> (result: Result<Vec<ReceiptWrite>, OrmErrorCode>)
    requires
        now.wf(),
    ensures
        match result {
            Err(code) => duplicates_fault(*submission, receipts@, maximum as nat) == Some(code),
            Ok(writes) => {
                &&& duplicates_fault(*submission, receipts@, maximum as nat) is None
                &&& writes@.len() == receipts@.len()
                &&& forall|i: int|
                    0 <= i < receipts@.len() ==> duplicate_closed(
                        #[trigger] writes@[i],
                        receipts@[i].receipt,
                        *submission,
                        status,
                        now.second(),
                    )
            },
        },
{
    if submission.provider_response_id.is_none() || receipts.len() > maximum {
        return Err(OrmErrorCode::InternalError);
    }
    let second: i64 = now.unix_timestamp();
    let mut writes: Vec<ReceiptWrite> = Vec::new();
    let mut i: usize = 0;
    while i < receipts.len()
        invariant
            i <= receipts@.len() <= maximum,
            submission.provider_response_id is Some,
            second == now.second(),
            writes@.len() == i,
            forall|k: int|
                0 <= k < i ==> receipt_valid(
                    #[trigger] receipts@[k],
                    *submission,
                    ReceiptState::PendingReconciliation,
                    false,
                ),
            forall|k: int|
                0 <= k < i ==> duplicate_closed(
                    #[trigger] writes@[k],
                    receipts@[k].receipt,
                    *submission,
                    status,
                    now.second(),
                ),
        decreases receipts@.len() - i,
    {
        match validate_background_receipt(
            &receipts[i],
            submission,
            ReceiptState::PendingReconciliation,
            false,
        ) {
            Ok(()) => {},
            Err(code) => {
                assert(!receipt_valid(
                    receipts@[i as int],
                    *submission,
                    ReceiptState::PendingReconciliation,
                    false,
                ));
                return Err(code);
            },
        }
        let receipt = &receipts[i].receipt;
        let agrees: bool = same_text(
            receipt.provider_event_kind.as_str(),
            expected_receipt_kind(status),
        );
        let (state, reason): (ReceiptState, Option<BackgroundReason>) = if agrees {
            (ReceiptState::DuplicateTerminal, None)
        } else {
            (ReceiptState::RecoveryRequired, Some(BackgroundReason::TerminalReceiptConflict))
        };
        writes.push(
            ReceiptWrite {
                id: receipt.id,
                provider_kind: receipt.provider_kind.clone(),
                expected_state: ReceiptState::PendingReconciliation,
                state,
                run_id: submission.run_id,
                attempt_id: submission.attempt_id,
                safe_error_code: reason,
                processed_at: Some(second),
            },
        );
        i += 1;
    }
    Ok(writes)
}

/// Accepts a receipt that the store returned from a write that settles it: in
/// the new state, with the reason and the instant of the write, and bound to
/// the submission where `bound` asks for that.
pub fn confirm_receipt_settled(
    updated: &AiProviderWebhookReceiptRecord,
    write: &ReceiptWrite,
    bound: bool,
) -> (result: Result<(), OrmErrorCode>)
    ensures
        result == if receipt_settled(*updated, *write, bound) {
            Ok::<(), OrmErrorCode>(())
        } else {
            Err(OrmErrorCode::InternalError)
        },
{
    let reason_matches: bool = match (write.safe_error_code, &updated.safe_error_code) {
        (Some(reason), Some(code)) => same_text(code.as_str(), reason.as_str()),
        (None, None) => true,
        _ => false,
    };
    let instant_matches: bool = match (write.processed_at, updated.processed_at) {
        (Some(planned), Some(at)) => planned == at,
        (None, None) => true,
        _ => false,
    };
    let binding_matches: bool = !bound || (same_id_option(updated.run_id, Some(write.run_id))
        && same_id_option(updated.attempt_id, Some(write.attempt_id)));
    if same_text(updated.state.as_str(), write.state.as_str()) && reason_matches && instant_matches
        && binding_matches {
        Ok(())
    } else {
        Err(OrmErrorCode::InternalError)
    }
}

/// Whether the row carries what the write settled.
pub open spec fn receipt_settled(
    updated: AiProviderWebhookReceiptRecord,
    write: ReceiptWrite,
    bound: bool,
) -> bool {
    &&& updated.state@ == receipt_state_text(write.state)
    &&& text_option(updated.safe_error_code) == match write.safe_error_code {
        Some(reason) => Some(reason_text(reason)),
        None => None,
    }
    &&& updated.processed_at == write.processed_at
    &&& bound ==> updated.run_id == Some(write.run_id) && updated.attempt_id == Some(
        write.attempt_id,
    )
}

/// A receipt is evidence exactly where it is verified, of a terminal event
/// about the very response, from the submission's profile, under the identity
/// that its event has, unprocessed, and bound to the submission or to nothing.
pub proof fn receipts_are_evidence_about_one_response(
    candidate: ReceiptCandidate,
    submission: AiProviderBackgroundSubmissionRecord,
    state: ReceiptState,
    matched: bool,
)
    ensures
        receipt_valid(candidate, submission, state, matched) <==> {
            let receipt = candidate.receipt;
            &&& receipt.signature_verified
            &&& receipt.id == candidate.expected_id
            &&& receipt.receipt_key@ == candidate.expected_key@
            &&& receipt.provider_kind@ == "openai"@
            &&& receipt.provider_profile_id@ == submission.provider_profile_id@
            &&& !blank(receipt.provider_event_id@) && byte_len(receipt.provider_event_id@) <= 200
            &&& receipt.provider_event_kind@ == "response_"@ + "completed"@
                || receipt.provider_event_kind@ == "response_"@ + "failed"@
                || receipt.provider_event_kind@ == "response_"@ + "incomplete"@
                || receipt.provider_event_kind@ == "response_"@ + "cancelled"@
            &&& receipt.provider_created_at > 0 && receipt.received_at > 0
            &&& submission.provider_response_id is Some && receipt.provider_response_id is Some
                && receipt.provider_response_id->0@ == submission.provider_response_id->0@
            &&& receipt.state@ == receipt_state_text(state)
            &&& receipt.safe_error_code is None && receipt.processed_at is None
            &&& receipt.row_version >= 0
            &&& matched ==> receipt.run_id is Some && receipt.run_id->0 == submission.run_id
                && receipt.attempt_id is Some && receipt.attempt_id->0 == submission.attempt_id
            &&& !matched ==> receipt.run_id is None && receipt.attempt_id is None
        },
{
    receipt_kinds_name_their_status(
        ProviderBackgroundStatus::Completed,
        candidate.receipt.provider_event_kind@,
    );
}

/// A submission has at most one matched receipt: one that is bound already
/// stays, and otherwise the oldest pending one is bound, by a worker that holds
/// the submission.
pub proof fn one_receipt_is_matched(
    submission: AiProviderBackgroundSubmissionRecord,
    matched: Seq<ReceiptCandidate>,
    pending: Seq<ReceiptCandidate>,
)
    ensures
        match_fault(submission, matched, pending) is None <==> {
            &&& submission.provider_response_id is Some
            &&& matched.len() <= 1
            &&& matched.len() == 1 ==> receipt_valid(
                matched[0],
                submission,
                ReceiptState::MatchedPending,
                true,
            )
            &&& matched.len() == 0 && pending.len() > 0 ==> submission.reconciliation_owner
                is Some && receipt_valid(
                pending[0],
                submission,
                ReceiptState::PendingReconciliation,
                false,
            )
        },
{
}

/// A receipt is processed with a status only where it reports that status.
pub proof fn receipts_confirm_their_status(
    submission: AiProviderBackgroundSubmissionRecord,
    candidate: ReceiptCandidate,
    matched: MatchedBackgroundReceipt,
    status: ProviderBackgroundStatus,
)
    requires
        status.terminal(),
    ensures
        receipt_commit_fault(submission, Some(candidate), matched, status) is None <==> {
            &&& receipt_valid(candidate, submission, ReceiptState::MatchedPending, true)
            &&& candidate.receipt.provider_event_kind@ == "response_"@ + status_text(status)
            &&& matched.provider_event_kind@ == candidate.receipt.provider_event_kind@
        },
{
    receipt_kinds_name_their_status(status, candidate.receipt.provider_event_kind@);
}

/// A further receipt is closed by whether it agrees: as a duplicate without a
/// reason where it reports the status that was settled, and for recovery as a
/// conflict where it reports another.
pub proof fn further_receipts_are_closed_by_agreement(
    write: ReceiptWrite,
    receipt: AiProviderWebhookReceiptRecord,
    submission: AiProviderBackgroundSubmissionRecord,
    status: ProviderBackgroundStatus,
    second: int,
)
    requires
        status.terminal(),
        duplicate_closed(write, receipt, submission, status, second),
    ensures
        write.id == receipt.id,
        write.provider_kind@ == receipt.provider_kind@,
        write.expected_state is PendingReconciliation,
        write.state is DuplicateTerminal <==> receipt.provider_event_kind@ == "response_"@
            + status_text(status),
        write.state is RecoveryRequired <==> receipt.provider_event_kind@ != "response_"@
            + status_text(status),
        write.state is DuplicateTerminal ==> write.safe_error_code is None,
        write.state is RecoveryRequired ==> write.safe_error_code == Some(
            BackgroundReason::TerminalReceiptConflict,
        ),
        write.run_id == submission.run_id,
        write.attempt_id == submission.attempt_id,
        write.processed_at is Some && write.processed_at->0 == second,
{
    receipt_kinds_name_their_status(status, receipt.provider_event_kind@);
}

/// A settled receipt carries the new state, the reason, and the instant.
pub proof fn settled_receipts_carry_their_write(
    updated: AiProviderWebhookReceiptRecord,
    write: ReceiptWrite,
    bound: bool,
)
    requires
        receipt_settled(updated, write, bound),
    ensures
        updated.state@ == receipt_state_text(write.state),
        updated.safe_error_code is Some <==> write.safe_error_code is Some,
        updated.safe_error_code is Some ==> updated.safe_error_code->0@ == reason_text(
            write.safe_error_code->0,
        ),
        updated.processed_at == write.processed_at,
        bound ==> updated.run_id == Some(write.run_id) && updated.attempt_id == Some(
            write.attempt_id,
        ),
{
}

/// The spellings of receipt states.
pub proof fn receipt_states_are_spelled_so()
    ensures
        receipt_state_text(ReceiptState::PendingReconciliation) == "pending_reconciliation"@,
        receipt_state_text(ReceiptState::MatchedPending) == "matched_pending"@,
        receipt_state_text(ReceiptState::Processed) == "processed"@,
        receipt_state_text(ReceiptState::DuplicateTerminal) == "duplicate_terminal"@,
        receipt_state_text(ReceiptState::RecoveryRequired) == "recovery_required"@,
{
}

/// Receipts that cannot be trusted are a fault of the store; a matched receipt
/// that is gone is not found, and one that says something else is a conflict.
pub proof fn receipt_faults_say_what_is_wrong(
    submission: AiProviderBackgroundSubmissionRecord,
    matched: Seq<ReceiptCandidate>,
    pending: Seq<ReceiptCandidate>,
    candidate: Option<ReceiptCandidate>,
    receipt: MatchedBackgroundReceipt,
    status: ProviderBackgroundStatus,
    maximum: nat,
)
    ensures
        match_fault(submission, matched, pending) matches Some(code) ==> code
            == OrmErrorCode::InternalError,
        receipt_closing_fault(submission, matched) matches Some(code) ==> code
            == OrmErrorCode::InternalError,
        duplicates_fault(submission, pending, maximum) matches Some(code) ==> code
            == OrmErrorCode::InternalError,
        duplicates_fault(submission, pending, maximum) is None <==> {
            &&& submission.provider_response_id is Some
            &&& pending.len() <= maximum
            &&& forall|i: int|
                0 <= i < pending.len() ==> receipt_valid(
                    #[trigger] pending[i],
                    submission,
                    ReceiptState::PendingReconciliation,
                    false,
                )
        },
        receipt_commit_fault(submission, candidate, receipt, status) == Some(OrmErrorCode::NotFound)
            <==> candidate is None,
        receipt_commit_fault(submission, candidate, receipt, status) == Some(OrmErrorCode::Conflict)
            <==> candidate is Some && receipt_valid(
            candidate->0,
            submission,
            ReceiptState::MatchedPending,
            true,
        ) && (candidate->0.receipt.provider_event_kind@ != receipt_kind_text(status)
            || candidate->0.receipt.provider_event_kind@ != receipt.provider_event_kind@),
        receipt_commit_fault(submission, candidate, receipt, status) is None <==> candidate is Some
            && receipt_valid(candidate->0, submission, ReceiptState::MatchedPending, true)
            && candidate->0.receipt.provider_event_kind@ == receipt_kind_text(status)
            && candidate->0.receipt.provider_event_kind@ == receipt.provider_event_kind@,
{
}

} // verus!
