//! States, statuses, and reason codes of background submissions.

use crate::access::AiRunState;
use crate::text::{byte_len, same_text, text_len};
use vstd::prelude::*;

verus! {

/// Lifecycle of one background submission.
#[derive(Clone, Copy, Debug, PartialEq, Eq, Structural)]
pub enum BackgroundSubmissionState {
    Prepared,
    WaitingProvider,
    Reconciling,
    Completed,
    Failed,
    Cancelled,
    RecoveryRequired,
}

/// Persisted spelling of a submission state.
pub open spec fn submission_state_text(state: BackgroundSubmissionState) -> Seq<char> {
    match state {
        BackgroundSubmissionState::Prepared => "prepared"@,
        BackgroundSubmissionState::WaitingProvider => "waiting_provider"@,
        BackgroundSubmissionState::Reconciling => "reconciling"@,
        BackgroundSubmissionState::Completed => "completed"@,
        BackgroundSubmissionState::Failed => "failed"@,
        BackgroundSubmissionState::Cancelled => "cancelled"@,
        BackgroundSubmissionState::RecoveryRequired => "recovery_required"@,
    }
}

/// The submission state with the given spelling.
pub open spec fn submission_state_of(value: Seq<char>) -> Option<BackgroundSubmissionState> {
    if value == "prepared"@ {
        Some(BackgroundSubmissionState::Prepared)
    } else if value == "waiting_provider"@ {
        Some(BackgroundSubmissionState::WaitingProvider)
    } else if value == "reconciling"@ {
        Some(BackgroundSubmissionState::Reconciling)
    } else if value == "completed"@ {
        Some(BackgroundSubmissionState::Completed)
    } else if value == "failed"@ {
        Some(BackgroundSubmissionState::Failed)
    } else if value == "cancelled"@ {
        Some(BackgroundSubmissionState::Cancelled)
    } else if value == "recovery_required"@ {
        Some(BackgroundSubmissionState::RecoveryRequired)
    } else {
        None
    }
}

impl BackgroundSubmissionState {
    /// Persisted spelling.
    pub fn as_str(self) -> (text: &'static str)
        ensures
            text@ == submission_state_text(self),
    {
        match self {
            BackgroundSubmissionState::Prepared => "prepared",
            BackgroundSubmissionState::WaitingProvider => "waiting_provider",
            BackgroundSubmissionState::Reconciling => "reconciling",
            BackgroundSubmissionState::Completed => "completed",
            BackgroundSubmissionState::Failed => "failed",
            BackgroundSubmissionState::Cancelled => "cancelled",
            BackgroundSubmissionState::RecoveryRequired => "recovery_required",
        }
    }

    /// Reads a persisted state.
    pub fn from_persisted(value: &str) -> (state: Option<BackgroundSubmissionState>)
        ensures
            state == submission_state_of(value@),
    {
        if same_text(value, "prepared") {
            Some(BackgroundSubmissionState::Prepared)
        } else if same_text(value, "waiting_provider") {
            Some(BackgroundSubmissionState::WaitingProvider)
        } else if same_text(value, "reconciling") {
            Some(BackgroundSubmissionState::Reconciling)
        } else if same_text(value, "completed") {
            Some(BackgroundSubmissionState::Completed)
        } else if same_text(value, "failed") {
            Some(BackgroundSubmissionState::Failed)
        } else if same_text(value, "cancelled") {
            Some(BackgroundSubmissionState::Cancelled)
        } else if same_text(value, "recovery_required") {
            Some(BackgroundSubmissionState::RecoveryRequired)
        } else {
            None
        }
    }
}

/// Every submission state survives being persisted and read back, and a
/// spelling that is read names the state it was read as.
pub proof fn submission_state_round_trip(state: BackgroundSubmissionState, value: Seq<char>)
    ensures
        submission_state_of(submission_state_text(state)) == Some(state),
        submission_state_of(value) matches Some(read) ==> submission_state_text(read) == value,
{
    reveal_strlit("prepared");
    reveal_strlit("waiting_provider");
    reveal_strlit("reconciling");
    reveal_strlit("completed");
    reveal_strlit("failed");
    reveal_strlit("cancelled");
    reveal_strlit("recovery_required");
    assert("prepared"@.len() == 8 && "waiting_provider"@.len() == 16 && "reconciling"@.len() == 11);
    assert("completed"@.len() == 9 && "failed"@.len() == 6 && "cancelled"@.len() == 9);
    assert("recovery_required"@.len() == 17);
    assert("completed"@[1] == 'o' && "cancelled"@[1] == 'a');
}

/// Status that the provider reports for a background response.
#[derive(Clone, Copy, Debug, PartialEq, Eq, Structural)]
pub enum ProviderBackgroundStatus {
    Queued,
    InProgress,
    Completed,
    Failed,
    Incomplete,
    Cancelled,
}

/// Persisted spelling of a provider status.
pub open spec fn status_text(status: ProviderBackgroundStatus) -> Seq<char> {
    match status {
        ProviderBackgroundStatus::Queued => "queued"@,
        ProviderBackgroundStatus::InProgress => "in_progress"@,
        ProviderBackgroundStatus::Completed => "completed"@,
        ProviderBackgroundStatus::Failed => "failed"@,
        ProviderBackgroundStatus::Incomplete => "incomplete"@,
        ProviderBackgroundStatus::Cancelled => "cancelled"@,
    }
}

/// Persisted spelling of a provider status.
pub fn background_status_value(status: ProviderBackgroundStatus) -> (text: &'static str)
    ensures
        text@ == status_text(status),
{
    match status {
        ProviderBackgroundStatus::Queued => "queued",
        ProviderBackgroundStatus::InProgress => "in_progress",
        ProviderBackgroundStatus::Completed => "completed",
        ProviderBackgroundStatus::Failed => "failed",
        ProviderBackgroundStatus::Incomplete => "incomplete",
        ProviderBackgroundStatus::Cancelled => "cancelled",
    }
}

impl ProviderBackgroundStatus {
    /// Statuses that the provider will not leave again.
    pub open spec fn terminal(self) -> bool {
        !(self is Queued || self is InProgress)
    }

    /// Whether the provider will not leave this status again.
    pub fn is_terminal(self) -> (result: bool)
        ensures
            result == self.terminal(),
    {
        match self {
            ProviderBackgroundStatus::Queued | ProviderBackgroundStatus::InProgress => false,
            _ => true,
        }
    }
}

/// Texts that name some provider status.
pub open spec fn names_status(value: Seq<char>) -> bool {
    exists|status: ProviderBackgroundStatus| #[trigger] status_text(status) == value
}

/// Whether the text names a provider status.
pub fn valid_provider_status(value: &str) -> (result: bool)
    ensures
        result == names_status(value@),
{
    let result: bool = same_text(value, "queued") || same_text(value, "in_progress") || same_text(
        value,
        "completed",
    ) || same_text(value, "failed") || same_text(value, "incomplete") || same_text(
        value,
        "cancelled",
    );
    proof {
        if result {
            assert(status_text(ProviderBackgroundStatus::Queued) == value@ || status_text(
                ProviderBackgroundStatus::InProgress,
            ) == value@ || status_text(ProviderBackgroundStatus::Completed) == value@
                || status_text(ProviderBackgroundStatus::Failed) == value@ || status_text(
                ProviderBackgroundStatus::Incomplete,
            ) == value@ || status_text(ProviderBackgroundStatus::Cancelled) == value@);
        }
    }
    result
}

/// Event kind of the receipt that confirms a status.
pub open spec fn receipt_kind_text(status: ProviderBackgroundStatus) -> Seq<char> {
    match status {
        ProviderBackgroundStatus::Completed => "response_completed"@,
        ProviderBackgroundStatus::Failed => "response_failed"@,
        ProviderBackgroundStatus::Incomplete => "response_incomplete"@,
        ProviderBackgroundStatus::Cancelled => "response_cancelled"@,
        ProviderBackgroundStatus::Queued | ProviderBackgroundStatus::InProgress => "nonterminal"@,
    }
}

/// Event kind of the receipt that confirms a status.
pub fn expected_receipt_kind(status: ProviderBackgroundStatus) -> (text: &'static str)
    ensures
        text@ == receipt_kind_text(status),
{
    match status {
        ProviderBackgroundStatus::Completed => "response_completed",
        ProviderBackgroundStatus::Failed => "response_failed",
        ProviderBackgroundStatus::Incomplete => "response_incomplete",
        ProviderBackgroundStatus::Cancelled => "response_cancelled",
        ProviderBackgroundStatus::Queued | ProviderBackgroundStatus::InProgress => "nonterminal",
    }
}

/// Event kinds of terminal receipts.
pub open spec fn terminal_receipt_kind(value: Seq<char>) -> bool {
    exists|status: ProviderBackgroundStatus|
        #![trigger receipt_kind_text(status)]
        status.terminal() && receipt_kind_text(status) == value
}

/// Whether the text is the event kind of a terminal receipt.
pub fn is_terminal_receipt_kind(value: &str) -> (result: bool)
    ensures
        result == terminal_receipt_kind(value@),
{
    let result: bool = same_text(value, "response_completed") || same_text(
        value,
        "response_failed",
    ) || same_text(value, "response_incomplete") || same_text(value, "response_cancelled");
    proof {
        if result {
            assert(receipt_kind_text(ProviderBackgroundStatus::Completed) == value@
                || receipt_kind_text(ProviderBackgroundStatus::Failed) == value@
                || receipt_kind_text(ProviderBackgroundStatus::Incomplete) == value@
                || receipt_kind_text(ProviderBackgroundStatus::Cancelled) == value@);
        }
    }
    result
}

/// Redacted reason that is stored when a submission or its run ends, or is
/// audited when a claim is released.
#[derive(Clone, Copy, Debug, PartialEq, Eq, Structural)]
pub enum BackgroundReason {
    BudgetUncertaintyNotPersisted,
    SubmissionOutcomeUncertain,
    AcknowledgementNotPersisted,
    DeadlineExpired,
    RetryExhausted,
    DeadlineExhausted,
    TerminalReceiptConflict,
    ResponseCompleted,
    ResponseFailed,
    ResponseIncomplete,
    ResponseCancelled,
    RetrievalTimeout,
    RetrievalRateLimited,
    RetrievalUnavailable,
    CredentialUnavailable,
    RetrievalRejected,
}

/// Persisted spelling of a reason.
pub open spec fn reason_text(reason: BackgroundReason) -> Seq<char> {
    match reason {
        BackgroundReason::BudgetUncertaintyNotPersisted => "budget_uncertainty_not_persisted"@,
        BackgroundReason::SubmissionOutcomeUncertain => "provider_submission_outcome_uncertain"@,
        BackgroundReason::AcknowledgementNotPersisted => "provider_acknowledgement_not_persisted"@,
        BackgroundReason::DeadlineExpired => "provider_response_deadline_expired"@,
        BackgroundReason::RetryExhausted => "provider_response_retry_exhausted"@,
        BackgroundReason::DeadlineExhausted => "provider_response_deadline_exhausted"@,
        BackgroundReason::TerminalReceiptConflict => "provider_terminal_receipt_conflict"@,
        BackgroundReason::ResponseCompleted => "provider_response_completed"@,
        BackgroundReason::ResponseFailed => "provider_response_failed"@,
        BackgroundReason::ResponseIncomplete => "provider_response_incomplete"@,
        BackgroundReason::ResponseCancelled => "provider_response_cancelled"@,
        BackgroundReason::RetrievalTimeout => "provider_response_retrieval_timeout"@,
        BackgroundReason::RetrievalRateLimited => "provider_response_retrieval_rate_limited"@,
        BackgroundReason::RetrievalUnavailable => "provider_response_retrieval_unavailable"@,
        BackgroundReason::CredentialUnavailable => "provider_response_credential_unavailable"@,
        BackgroundReason::RetrievalRejected => "provider_response_retrieval_rejected"@,
    }
}

impl BackgroundReason {
    /// Persisted spelling.
    pub fn as_str(self) -> (text: &'static str)
        ensures
            text@ == reason_text(self),
    {
        match self {
            BackgroundReason::BudgetUncertaintyNotPersisted => "budget_uncertainty_not_persisted",
            BackgroundReason::SubmissionOutcomeUncertain => "provider_submission_outcome_uncertain",
            BackgroundReason::AcknowledgementNotPersisted => "provider_acknowledgement_not_persisted",
            BackgroundReason::DeadlineExpired => "provider_response_deadline_expired",
            BackgroundReason::RetryExhausted => "provider_response_retry_exhausted",
            BackgroundReason::DeadlineExhausted => "provider_response_deadline_exhausted",
            BackgroundReason::TerminalReceiptConflict => "provider_terminal_receipt_conflict",
            BackgroundReason::ResponseCompleted => "provider_response_completed",
            BackgroundReason::ResponseFailed => "provider_response_failed",
            BackgroundReason::ResponseIncomplete => "provider_response_incomplete",
            BackgroundReason::ResponseCancelled => "provider_response_cancelled",
            BackgroundReason::RetrievalTimeout => "provider_response_retrieval_timeout",
            BackgroundReason::RetrievalRateLimited => "provider_response_retrieval_rate_limited",
            BackgroundReason::RetrievalUnavailable => "provider_response_retrieval_unavailable",
            BackgroundReason::CredentialUnavailable => "provider_response_credential_unavailable",
            BackgroundReason::RetrievalRejected => "provider_response_retrieval_rejected",
        }
    }
}

/// What a terminal status means for the run and the submission.
#[derive(Clone, Copy, Debug, PartialEq, Eq, Structural)]
pub struct TerminalMapping {
    pub run_state: AiRunState,
    pub submission_state: BackgroundSubmissionState,
    pub outcome: BackgroundReason,
    /// Reason stored with the run and the submission; none for a completion.
    pub stored_reason: Option<BackgroundReason>,
}

/// What a terminal status means; nothing for a status that is not terminal.
pub open spec fn terminal_mapping(status: ProviderBackgroundStatus) -> Option<TerminalMapping> {
    match status {
        ProviderBackgroundStatus::Completed => Some(
            TerminalMapping {
                run_state: AiRunState::Completed,
                submission_state: BackgroundSubmissionState::Completed,
                outcome: BackgroundReason::ResponseCompleted,
                stored_reason: None,
            },
        ),
        ProviderBackgroundStatus::Failed => Some(
            TerminalMapping {
                run_state: AiRunState::Failed,
                submission_state: BackgroundSubmissionState::Failed,
                outcome: BackgroundReason::ResponseFailed,
                stored_reason: Some(BackgroundReason::ResponseFailed),
            },
        ),
        ProviderBackgroundStatus::Incomplete => Some(
            TerminalMapping {
                run_state: AiRunState::Failed,
                submission_state: BackgroundSubmissionState::Failed,
                outcome: BackgroundReason::ResponseIncomplete,
                stored_reason: Some(BackgroundReason::ResponseIncomplete),
            },
        ),
        ProviderBackgroundStatus::Cancelled => Some(
            TerminalMapping {
                run_state: AiRunState::Cancelled,
                submission_state: BackgroundSubmissionState::Cancelled,
                outcome: BackgroundReason::ResponseCancelled,
                stored_reason: Some(BackgroundReason::ResponseCancelled),
            },
        ),
        ProviderBackgroundStatus::Queued | ProviderBackgroundStatus::InProgress => None,
    }
}

/// What a terminal status means; nothing for a status that is not terminal.
pub fn map_terminal_status(status: ProviderBackgroundStatus) -> (mapping: Option<TerminalMapping>)
    ensures
        mapping == terminal_mapping(status),
{
    match status {
        ProviderBackgroundStatus::Completed => Some(
            TerminalMapping {
                run_state: AiRunState::Completed,
                submission_state: BackgroundSubmissionState::Completed,
                outcome: BackgroundReason::ResponseCompleted,
                stored_reason: None,
            },
        ),
        ProviderBackgroundStatus::Failed => Some(
            TerminalMapping {
                run_state: AiRunState::Failed,
                submission_state: BackgroundSubmissionState::Failed,
                outcome: BackgroundReason::ResponseFailed,
                stored_reason: Some(BackgroundReason::ResponseFailed),
            },
        ),
        ProviderBackgroundStatus::Incomplete => Some(
            TerminalMapping {
                run_state: AiRunState::Failed,
                submission_state: BackgroundSubmissionState::Failed,
                outcome: BackgroundReason::ResponseIncomplete,
                stored_reason: Some(BackgroundReason::ResponseIncomplete),
            },
        ),
        ProviderBackgroundStatus::Cancelled => Some(
            TerminalMapping {
                run_state: AiRunState::Cancelled,
                submission_state: BackgroundSubmissionState::Cancelled,
                outcome: BackgroundReason::ResponseCancelled,
                stored_reason: Some(BackgroundReason::ResponseCancelled),
            },
        ),
        ProviderBackgroundStatus::Queued | ProviderBackgroundStatus::InProgress => None,
    }
}

/// ASCII letters, digits, the hyphen, and the underscore.
pub open spec fn response_id_char(c: char) -> bool {
    'a' <= c <= 'z' || 'A' <= c <= 'Z' || '0' <= c <= '9' || c == '-' || c == '_'
}

/// Response identifiers: `resp_` followed by at least one letter, digit,
/// hyphen, or underscore, at most 200 bytes in all.
pub open spec fn response_id_text(value: Seq<char>) -> bool {
    &&& "resp_"@.is_prefix_of(value)
    &&& 6 <= byte_len(value) <= 200
    &&& forall|i: int| 0 <= i < value.len() ==> response_id_char(#[trigger] value[i])
}

/// Whether the text is a response identifier.
pub fn valid_response_id(value: &str) -> (result: bool)
    ensures
        result == response_id_text(value@),
{
    proof {
        reveal_strlit("resp_");
        assert("resp_"@.len() == 5);
        assert("resp_"@[0] == 'r' && "resp_"@[1] == 'e' && "resp_"@[2] == 's' && "resp_"@[3] == 'p'
            && "resp_"@[4] == '_');
    }
    let length: usize = text_len(value);
    if length < 6 || length > 200 || value.unicode_len() < 5 {
        return false;
    }
    if value.get_char(0) != 'r' || value.get_char(1) != 'e' || value.get_char(2) != 's'
        || value.get_char(3) != 'p' || value.get_char(4) != '_' {
        return false;
    }
    assert("resp_"@ =~= value@.subrange(0, 5));
    for c in iter: value.chars()
        invariant
            iter.seq() == value@,
            forall|i: int| 0 <= i < iter.index() ==> response_id_char(#[trigger] value@[i]),
    {
        if !(('a' <= c && c <= 'z') || ('A' <= c && c <= 'Z') || ('0' <= c && c <= '9') || c == '-'
            || c == '_') {
            return false;
        }
    }
    true
}

/// Hexadecimal digits of either case.
pub open spec fn hexadecimal_digit(c: char) -> bool {
    '0' <= c <= '9' || 'a' <= c <= 'f' || 'A' <= c <= 'F'
}

/// Digests as text: exactly 64 hexadecimal digits.
pub open spec fn sha256_text(value: Seq<char>) -> bool {
    &&& byte_len(value) == 64
    &&& forall|i: int| 0 <= i < value.len() ==> hexadecimal_digit(#[trigger] value[i])
}

/// Whether the text is a digest.
pub fn valid_sha256_hex(value: &str) -> (result: bool)
    ensures
        result == sha256_text(value@),
{
    if text_len(value) != 64 {
        return false;
    }
    for c in iter: value.chars()
        invariant
            iter.seq() == value@,
            forall|i: int| 0 <= i < iter.index() ==> hexadecimal_digit(#[trigger] value@[i]),
    {
        if !(('0' <= c && c <= '9') || ('a' <= c && c <= 'f') || ('A' <= c && c <= 'F')) {
            return false;
        }
    }
    true
}

/// What a terminal status means for run, submission, and record: a completed
/// response completes both and carries no reason; a failed or incomplete one
/// fails both and a cancelled one cancels both, each under its own reason. A
/// response that is queued or in progress settles nothing.
pub proof fn terminal_statuses_settle_alike(status: ProviderBackgroundStatus)
    ensures
        terminal_mapping(status) is None <==> status is Queued || status is InProgress,
        !status.terminal() <==> status is Queued || status is InProgress,
        terminal_mapping(status) matches Some(mapping) ==> {
            &&& mapping.run_state is Completed <==> status is Completed
            &&& mapping.run_state is Cancelled <==> status is Cancelled
            &&& mapping.run_state is Failed <==> status is Failed || status is Incomplete
            &&& mapping.submission_state is Completed <==> status is Completed
            &&& mapping.submission_state is Cancelled <==> status is Cancelled
            &&& mapping.submission_state is Failed <==> status is Failed || status is Incomplete
            &&& mapping.outcome is ResponseCompleted <==> status is Completed
            &&& mapping.outcome is ResponseFailed <==> status is Failed
            &&& mapping.outcome is ResponseIncomplete <==> status is Incomplete
            &&& mapping.outcome is ResponseCancelled <==> status is Cancelled
            &&& mapping.stored_reason is None <==> status is Completed
            &&& mapping.stored_reason is Some ==> mapping.stored_reason->0 == mapping.outcome
        },
{
}

/// A receipt confirms the status that it is named after: its kind is `response`
/// and the spelling of a terminal status, and no two statuses share one.
pub proof fn receipt_kinds_name_their_status(status: ProviderBackgroundStatus, value: Seq<char>)
    ensures
        status.terminal() ==> receipt_kind_text(status) == "response_"@ + status_text(status),
        terminal_receipt_kind(value) <==> value == "response_"@ + "completed"@ || value
            == "response_"@ + "failed"@ || value == "response_"@ + "incomplete"@ || value
            == "response_"@ + "cancelled"@,
{
    reveal_strlit("response_");
    reveal_strlit("completed");
    reveal_strlit("failed");
    reveal_strlit("incomplete");
    reveal_strlit("cancelled");
    reveal_strlit("response_completed");
    reveal_strlit("response_failed");
    reveal_strlit("response_incomplete");
    reveal_strlit("response_cancelled");
    assert("response_completed"@ =~= "response_"@ + "completed"@);
    assert("response_failed"@ =~= "response_"@ + "failed"@);
    assert("response_incomplete"@ =~= "response_"@ + "incomplete"@);
    assert("response_cancelled"@ =~= "response_"@ + "cancelled"@);
    assert(ProviderBackgroundStatus::Completed.terminal() && receipt_kind_text(
        ProviderBackgroundStatus::Completed,
    ) == "response_completed"@);
    assert(ProviderBackgroundStatus::Failed.terminal() && receipt_kind_text(
        ProviderBackgroundStatus::Failed,
    ) == "response_failed"@);
    assert(ProviderBackgroundStatus::Incomplete.terminal() && receipt_kind_text(
        ProviderBackgroundStatus::Incomplete,
    ) == "response_incomplete"@);
    assert(ProviderBackgroundStatus::Cancelled.terminal() && receipt_kind_text(
        ProviderBackgroundStatus::Cancelled,
    ) == "response_cancelled"@);
}

/// The spellings of provider statuses.
pub proof fn statuses_are_spelled_so(status: ProviderBackgroundStatus, value: Seq<char>)
    ensures
        names_status(value) <==> value == "queued"@ || value == "in_progress"@ || value
            == "completed"@ || value == "failed"@ || value == "incomplete"@ || value
            == "cancelled"@,
        status is Queued ==> status_text(status) == "queued"@,
        status is InProgress ==> status_text(status) == "in_progress"@,
        status is Completed ==> status_text(status) == "completed"@,
        status is Failed ==> status_text(status) == "failed"@,
        status is Incomplete ==> status_text(status) == "incomplete"@,
        status is Cancelled ==> status_text(status) == "cancelled"@,
{
    assert(status_text(ProviderBackgroundStatus::Queued) == "queued"@);
    assert(status_text(ProviderBackgroundStatus::InProgress) == "in_progress"@);
    assert(status_text(ProviderBackgroundStatus::Completed) == "completed"@);
    assert(status_text(ProviderBackgroundStatus::Failed) == "failed"@);
    assert(status_text(ProviderBackgroundStatus::Incomplete) == "incomplete"@);
    assert(status_text(ProviderBackgroundStatus::Cancelled) == "cancelled"@);
}

/// A submission state is read from one spelling only.
pub proof fn submission_states_are_spelled_so(value: Seq<char>)
    ensures
        submission_state_of(value) == Some(BackgroundSubmissionState::Prepared) <==> value
            == "prepared"@,
        submission_state_of(value) == Some(BackgroundSubmissionState::WaitingProvider) <==> value
            == "waiting_provider"@,
        submission_state_of(value) == Some(BackgroundSubmissionState::Reconciling) <==> value
            == "reconciling"@,
        submission_state_of(value) == Some(BackgroundSubmissionState::Completed) <==> value
            == "completed"@,
        submission_state_of(value) == Some(BackgroundSubmissionState::Failed) <==> value
            == "failed"@,
        submission_state_of(value) == Some(BackgroundSubmissionState::Cancelled) <==> value
            == "cancelled"@,
        submission_state_of(value) == Some(BackgroundSubmissionState::RecoveryRequired) <==> value
            == "recovery_required"@,
{
    submission_state_round_trip(BackgroundSubmissionState::Prepared, value);
    submission_state_round_trip(BackgroundSubmissionState::WaitingProvider, value);
    submission_state_round_trip(BackgroundSubmissionState::Reconciling, value);
    submission_state_round_trip(BackgroundSubmissionState::Completed, value);
    submission_state_round_trip(BackgroundSubmissionState::Failed, value);
    submission_state_round_trip(BackgroundSubmissionState::Cancelled, value);
    submission_state_round_trip(BackgroundSubmissionState::RecoveryRequired, value);
}

/// The spellings of reasons.
pub proof fn reasons_are_spelled_so()
    ensures
        reason_text(BackgroundReason::BudgetUncertaintyNotPersisted)
            == "budget_uncertainty_not_persisted"@,
        reason_text(BackgroundReason::SubmissionOutcomeUncertain)
            == "provider_submission_outcome_uncertain"@,
        reason_text(BackgroundReason::AcknowledgementNotPersisted)
            == "provider_acknowledgement_not_persisted"@,
        reason_text(BackgroundReason::DeadlineExpired) == "provider_response_deadline_expired"@,
        reason_text(BackgroundReason::RetryExhausted) == "provider_response_retry_exhausted"@,
        reason_text(BackgroundReason::DeadlineExhausted)
            == "provider_response_deadline_exhausted"@,
        reason_text(BackgroundReason::TerminalReceiptConflict)
            == "provider_terminal_receipt_conflict"@,
        reason_text(BackgroundReason::ResponseCompleted) == "provider_response_completed"@,
        reason_text(BackgroundReason::ResponseFailed) == "provider_response_failed"@,
        reason_text(BackgroundReason::ResponseIncomplete) == "provider_response_incomplete"@,
        reason_text(BackgroundReason::ResponseCancelled) == "provider_response_cancelled"@,
        reason_text(BackgroundReason::RetrievalTimeout) == "provider_response_retrieval_timeout"@,
        reason_text(BackgroundReason::RetrievalRateLimited)
            == "provider_response_retrieval_rate_limited"@,
        reason_text(BackgroundReason::RetrievalUnavailable)
            == "provider_response_retrieval_unavailable"@,
        reason_text(BackgroundReason::CredentialUnavailable)
            == "provider_response_credential_unavailable"@,
        reason_text(BackgroundReason::RetrievalRejected)
            == "provider_response_retrieval_rejected"@,
{
}

/// A response identifier is `resp_` and at least one more character, at most 200
/// bytes, of letters, digits, hyphens and underscores alone.
pub proof fn response_identifiers_are_plain_names(value: Seq<char>, i: int)
    requires
        response_id_text(value),
        0 <= i < value.len(),
    ensures
        'a' <= value[i] <= 'z' || 'A' <= value[i] <= 'Z' || '0' <= value[i] <= '9' || value[i] == '-'
            || value[i] == '_',
        "resp_"@.is_prefix_of(value),
        5 < byte_len(value) <= 200,
{
}

} // verus!
