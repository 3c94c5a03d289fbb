//! The assistant message of a completed background response.

use crate::background::claim::AiOpenAiBackgroundReconciliationClaim;
use crate::background::identity::{background_terminal_identity, terminal_id_value};
use crate::background::rows::{AiProviderBackgroundSubmissionRecord, AiSessionEventRecord};
use crate::checkpoints::adoption::AiRunCheckpointRecord;
use crate::clock::UtcTime;
use crate::digest::{Uuid, uuid_text, uuid_to_string};
use crate::egress::same_id_option;
use crate::error::OrmErrorCode;
use crate::inbox::stream::{
    AiInboxEventRecord, AiInboxStreamRecord, InboxAppend, InboxEventModel, PreparedAiInboxEvent,
    append_inbox_event, append_planned, event_type_char, event_type_text, head_before, stream_of,
};
use crate::principal::{AiScope, principal_reference_kind};
use crate::records::{AiMessageBlockRecord, AiMessageRecord, AiRunRecord, AiSessionRecord};
use crate::text::{
    bounded_text, byte_len, clone_text_option, option_is_text, same_text, same_text_option,
    text_option,
};
use vstd::prelude::*;

verus! {

/// What the output of a completed response is prepared from, besides its
/// events.
#[derive(Debug, PartialEq, Eq)]
pub struct BackgroundProviderOutputPreparation {
    pub message_id: Uuid,
    pub event_id: Uuid,
    pub inbox_event_id: Uuid,
    pub run_id: Uuid,
    pub attempt_id: Uuid,
    pub lease_generation: i64,
    pub provider_model: String,
    pub provider_response_id: String,
    pub budget_reservation_id: Uuid,
    pub correlation_id: String,
    pub owner_principal_kind: String,
    pub owner_subject: String,
    pub scope: AiScope,
}

/// What the output of the claim's response is prepared from. All identities
/// are determined by the submission.
pub fn output_preparation(claim: &AiOpenAiBackgroundReconciliationClaim) -> (preparation:
    BackgroundProviderOutputPreparation)
    ensures
        preparation.message_id == terminal_id_value(claim@.submission_id, "assistant-message"@),
        preparation.event_id == terminal_id_value(claim@.submission_id, "session-event"@),
        preparation.inbox_event_id == terminal_id_value(claim@.submission_id, "inbox-event"@),
        preparation.run_id == claim@.run_id,
        preparation.attempt_id == claim@.attempt_id,
        preparation.lease_generation == claim@.original_lease_generation,
        preparation.provider_model == claim@.provider_model,
        preparation.provider_response_id == claim@.provider_response_id,
        preparation.budget_reservation_id == claim@.budget_reservation_id,
        preparation.correlation_id@ == uuid_text(claim@.submission_id),
        preparation.owner_principal_kind@ == claim@.principal_reference@.kind,
        preparation.owner_subject == claim@.principal_reference.subject,
        preparation.scope == claim@.scope,
{
    let details = claim.details();
    BackgroundProviderOutputPreparation {
        message_id: background_terminal_identity(details.submission_id, "assistant-message"),
        event_id: background_terminal_identity(details.submission_id, "session-event"),
        inbox_event_id: background_terminal_identity(details.submission_id, "inbox-event"),
        run_id: details.run_id,
        attempt_id: details.attempt_id,
        lease_generation: details.original_lease_generation,
        provider_model: details.provider_model.clone(),
        provider_response_id: details.provider_response_id.clone(),
        budget_reservation_id: details.budget_reservation_id,
        correlation_id: uuid_to_string(details.submission_id),
        owner_principal_kind: principal_reference_kind(&details.principal_reference),
        owner_subject: details.principal_reference.subject.clone(),
        scope: details.scope.clone(),
    }
}

/// One prepared content block, apart from its protected content.
#[derive(Debug, PartialEq, Eq)]
pub struct PreparedOutputBlock {
    pub id: Uuid,
    pub kind: String,
    pub byte_count: i64,
    pub line_count: i64,
}

/// A prepared assistant message, apart from its protected content.
#[derive(Debug, PartialEq, Eq)]
pub struct PreparedProviderOutput {
    pub message_id: Uuid,
    pub event_id: Uuid,
    pub inbox_event_id: Uuid,
    pub provider_kind: String,
    pub provider_model: String,
    pub provider_response_id: Option<String>,
    pub budget_reservation_id: Uuid,
    pub correlation_id: String,
    pub checkpoint_hash: String,
    pub blocks: Vec<PreparedOutputBlock>,
    pub expected_owner_principal_kind: String,
    pub expected_owner_subject: String,
    pub expected_scope: AiScope,
}

/// Whether the output is that of exactly this submission.
pub open spec fn output_binds(
    output: PreparedProviderOutput,
    submission: AiProviderBackgroundSubmissionRecord,
) -> bool {
    &&& output.blocks@.len() > 0
    &&& output.message_id == terminal_id_value(submission.id, "assistant-message"@)
    &&& output.event_id == terminal_id_value(submission.id, "session-event"@)
    &&& output.inbox_event_id == terminal_id_value(submission.id, "inbox-event"@)
    &&& output.provider_kind@ == "openai"@
    &&& output.provider_model@ == submission.provider_model@
    &&& text_option(output.provider_response_id) == text_option(submission.provider_response_id)
    &&& output.budget_reservation_id == submission.budget_reservation_id
    &&& output.correlation_id@ == uuid_text(submission.id)
}

fn is_output_bound(
    output: &PreparedProviderOutput,
    submission: &AiProviderBackgroundSubmissionRecord,
) -> (result: bool)
    ensures
        result == output_binds(*output, *submission),
{
    let correlation = uuid_to_string(submission.id);
    output.blocks.len() > 0 && output.message_id == background_terminal_identity(
        submission.id,
        "assistant-message",
    ) && output.event_id == background_terminal_identity(submission.id, "session-event")
        && output.inbox_event_id == background_terminal_identity(submission.id, "inbox-event")
        && same_text(output.provider_kind.as_str(), "openai") && same_text(
        output.provider_model.as_str(),
        submission.provider_model.as_str(),
    ) && same_text_option(&output.provider_response_id, &submission.provider_response_id)
        && output.budget_reservation_id == submission.budget_reservation_id && same_text(
        output.correlation_id.as_str(),
        correlation.as_str(),
    )
}

/// Whether the session is open and still that of the output's owner and scope.
pub open spec fn session_expects(session: AiSessionRecord, output: PreparedProviderOutput) -> bool {
    &&& session.state@ == "active"@
    &&& session.deleted_at is None
    &&& session.owner_principal_kind@ == output.expected_owner_principal_kind@
    &&& session.owner_subject@ == output.expected_owner_subject@
    &&& session.scope_kind@ == output.expected_scope.kind@
    &&& session.scope_id@ == output.expected_scope.id@
    &&& text_option(session.tenant_id) == text_option(output.expected_scope.tenant_id)
}

fn is_session_expected(session: &AiSessionRecord, output: &PreparedProviderOutput) -> (result: bool)
    ensures
        result == session_expects(*session, *output),
{
    same_text(session.state.as_str(), "active") && session.deleted_at.is_none() && same_text(
        session.owner_principal_kind.as_str(),
        output.expected_owner_principal_kind.as_str(),
    ) && same_text(session.owner_subject.as_str(), output.expected_owner_subject.as_str())
        && same_text(session.scope_kind.as_str(), output.expected_scope.kind.as_str()) && same_text(
        session.scope_id.as_str(),
        output.expected_scope.id.as_str(),
    ) && same_text_option(&session.tenant_id, &output.expected_scope.tenant_id)
}

/// Advance of a session's heads, fenced by its version.
#[derive(Debug, PartialEq, Eq)]
pub struct SessionAdvance {
    pub session_id: Uuid,
    pub expected_row_version: i64,
    pub message_head: i64,
    pub stream_head: i64,
    pub last_activity_at: i64,
}

/// Tells the subscribers of a session that its stream grew.
#[derive(Clone, Copy, Debug, PartialEq, Eq, Structural)]
pub struct AiSessionWakeup {
    pub session_id: Uuid,
    /// Sequence of the appended event.
    pub sequence: i64,
}

/// Every write of a completed response's output, and the wakeups that are
/// queued with them. Protected contents are attached by the host.
#[derive(Debug, PartialEq, Eq)]
pub struct OutputPlan {
    pub session: SessionAdvance,
    pub message: AiMessageRecord,
    pub checkpoint: AiRunCheckpointRecord,
    pub blocks: Vec<AiMessageBlockRecord>,
    pub event: AiSessionEventRecord,
    pub wakeup: AiSessionWakeup,
    pub inbox: InboxAppend,
}

/// Why the inbox event cannot be appended.
pub open spec fn announcement_fault(
    stream: Option<AiInboxStreamRecord>,
    output: PreparedProviderOutput,
) -> Option<OrmErrorCode> {
    if !bounded_text(output.expected_owner_principal_kind@, 128)
        || !bounded_text(output.expected_owner_subject@, 512) {
        Some(OrmErrorCode::InvalidInput)
    } else if stream is Some && !stream_of(
        stream->0,
        output.expected_owner_principal_kind@,
        output.expected_owner_subject@,
    ) {
        Some(OrmErrorCode::InternalError)
    } else if head_before(stream) == i64::MAX {
        Some(OrmErrorCode::InternalError)
    } else {
        None
    }
}

/// Why the output cannot be persisted, in the order of checks. The number of
/// blocks must leave room for the one more that a later reading asks for.
pub open spec fn output_fault(
    session: AiSessionRecord,
    submission: AiProviderBackgroundSubmissionRecord,
    output: PreparedProviderOutput,
    expected_checkpoint_hash: Seq<char>,
    stream: Option<AiInboxStreamRecord>,
) -> Option<OrmErrorCode> {
    if !output_binds(output, submission) || !session_expects(session, output) {
        Some(OrmErrorCode::Conflict)
    } else if output.checkpoint_hash@ != expected_checkpoint_hash {
        Some(OrmErrorCode::Conflict)
    } else if session.message_head == i64::MAX || session.stream_head == i64::MAX {
        Some(OrmErrorCode::InternalError)
    } else if output.blocks@.len() >= i64::MAX {
        Some(OrmErrorCode::InvalidInput)
    } else {
        announcement_fault(stream, output)
    }
}

/// Whether the message row is the completed assistant message of the output.
pub open spec fn message_completed(
    message: AiMessageRecord,
    output: PreparedProviderOutput,
    submission: AiProviderBackgroundSubmissionRecord,
    session: AiSessionRecord,
    second: int,
) -> bool {
    &&& message.id == output.message_id
    &&& message.session_id == session.id
    &&& message.sequence == session.message_head + 1
    &&& message.message_role@ == "assistant"@
    &&& message.run_id == Some(submission.run_id)
    &&& message.provider_kind == Some(output.provider_kind)
    &&& message.provider_model == Some(output.provider_model)
    &&& message.completion_state@ == "complete"@
    &&& message.finalized_at is Some && message.finalized_at->0 == second
    &&& message.content_purged_at is None
    &&& message.has_protected_preview
    &&& message.block_count == output.blocks@.len()
}

/// Whether the checkpoint row records that the output was persisted.
pub open spec fn output_checkpointed(
    checkpoint: AiRunCheckpointRecord,
    output: PreparedProviderOutput,
    submission: AiProviderBackgroundSubmissionRecord,
) -> bool {
    &&& checkpoint.id == output.message_id
    &&& checkpoint.run_id == submission.run_id
    &&& checkpoint.attempt_id == submission.attempt_id
    &&& checkpoint.lease_generation == submission.lease_generation
    &&& checkpoint.checkpoint_kind@ == "assistant_output_persisted"@
    &&& checkpoint.provider_response_id == output.provider_response_id
    &&& checkpoint.budget_reservation_id == Some(submission.budget_reservation_id)
    &&& checkpoint.assistant_message_id == Some(output.message_id)
    &&& checkpoint.protected_state is None
    &&& checkpoint.checkpoint_hash == output.checkpoint_hash
}

/// Whether the block row is the output's block at this position.
pub open spec fn block_persisted(
    row: AiMessageBlockRecord,
    block: PreparedOutputBlock,
    message_id: Uuid,
    index: int,
) -> bool {
    &&& row.id == block.id
    &&& row.message_id == message_id
    &&& row.block_index == index
    &&& row.block_kind == block.kind
    &&& row.byte_count == block.byte_count
    &&& row.line_count == block.line_count
}

/// Whether the plan persists exactly this output.
pub open spec fn output_planned(
    plan: OutputPlan,
    session: AiSessionRecord,
    submission: AiProviderBackgroundSubmissionRecord,
    run: AiRunRecord,
    output: PreparedProviderOutput,
    stream: Option<AiInboxStreamRecord>,
    second: int,
) -> bool {
    &&& plan.session.session_id == session.id
    &&& plan.session.expected_row_version == session.row_version
    &&& plan.session.message_head == session.message_head + 1
    &&& plan.session.stream_head == session.stream_head + 1
    &&& plan.session.last_activity_at == second
    &&& message_completed(plan.message, output, submission, session, second)
    &&& output_checkpointed(plan.checkpoint, output, submission)
    &&& plan.blocks@.len() == output.blocks@.len()
    &&& forall|i: int|
        0 <= i < plan.blocks@.len() ==> block_persisted(
            #[trigger] plan.blocks@[i],
            output.blocks@[i],
            output.message_id,
            i,
        )
    &&& plan.event.id == output.event_id
    &&& plan.event.session_id == session.id
    &&& plan.event.sequence == session.stream_head + 1
    &&& plan.event.event_type@ == "assistant_message_completed"@
    &&& plan.event.run_id == Some(submission.run_id)
    &&& text_option(plan.event.causation_id) == Some(uuid_text(run.input_message_id))
    &&& plan.event.correlation_id == output.correlation_id
    &&& plan.wakeup == (AiSessionWakeup {
        session_id: session.id,
        sequence: plan.event.sequence,
    })
    &&& append_planned(
        plan.inbox,
        stream,
        InboxEventModel {
            id: output.inbox_event_id,
            principal_kind: output.expected_owner_principal_kind@,
            principal_subject: output.expected_owner_subject@,
            scope: output.expected_scope@,
            session_id: session.id,
            event_type: "assistant_message_completed"@,
            created_at: second as i64,
        },
    )
}

proof fn lemma_completed_event_type()
    ensures
        event_type_text("assistant_message_completed"@),
{
    reveal_strlit("assistant_message_completed");
    let text = "assistant_message_completed"@;
    assert(text.len() == 27);
    assert forall|i: int| 0 <= i < text.len() implies event_type_char(#[trigger] text[i]) by {
        assert(text[0] == 'a' && text[1] == 's' && text[2] == 's' && text[3] == 'i' && text[4]
            == 's' && text[5] == 't' && text[6] == 'a' && text[7] == 'n' && text[8] == 't');
        assert(text[9] == '_' && text[10] == 'm' && text[11] == 'e' && text[12] == 's' && text[13]
            == 's' && text[14] == 'a' && text[15] == 'g' && text[16] == 'e' && text[17] == '_');
        assert(text[18] == 'c' && text[19] == 'o' && text[20] == 'm' && text[21] == 'p' && text[22]
            == 'l' && text[23] == 'e' && text[24] == 't' && text[25] == 'e' && text[26] == 'd');
    }
    assert(byte_len(text) <= 128) by {
        vstd::utf8::is_ascii_chars_encode_utf8(text);
    }
}

fn planned_blocks(blocks: &Vec<PreparedOutputBlock>, message_id: Uuid) -> (rows: Vec<
    AiMessageBlockRecord,
>)
    requires
        blocks@.len() <= i64::MAX,
    ensures
        rows@.len() == blocks@.len(),
        forall|i: int|
            0 <= i < rows@.len() ==> block_persisted(
                #[trigger] rows@[i],
                blocks@[i],
                message_id,
                i,
            ),
{
    let mut rows: Vec<AiMessageBlockRecord> = Vec::new();
    let mut i: usize = 0;
    while i < blocks.len()
        invariant
            i <= blocks@.len() <= i64::MAX,
            rows@.len() == i,
            forall|k: int|
                0 <= k < i ==> block_persisted(
                    #[trigger] rows@[k],
                    blocks@[k],
                    message_id,
                    k,
                ),
        decreases blocks@.len() - i,
    {
        let block = &blocks[i];
        rows.push(
            AiMessageBlockRecord {
                id: block.id,
                message_id,
                block_index: i as i64,
                block_kind: block.kind.clone(),
                byte_count: block.byte_count,
                line_count: block.line_count,
            },
        );
        i += 1;
    }
    rows
}

/// Plans the persistence of a completed response's output.
/// `expected_checkpoint_hash` binds the message to the run's attempt and
/// response; `stream` is the row with the identity of the owner's inbox
/// stream.
pub fn persist_background_provider_output(
    session: &AiSessionRecord,
    submission: &AiProviderBackgroundSubmissionRecord,
    run: &AiRunRecord,
    output: &PreparedProviderOutput,
    expected_checkpoint_hash: &str,
    stream: &Option<AiInboxStreamRecord>,
    now: UtcTime,
) -> (result: Result<OutputPlan, OrmErrorCode>)
    requires
        now.wf(),
    ensures
        match result {
            Err(code) => output_fault(
                *session,
                *submission,
                *output,
                expected_checkpoint_hash@,
                *stream,
            ) == Some(code),
            Ok(plan) => output_fault(
                *session,
                *submission,
                *output,
                expected_checkpoint_hash@,
                *stream,
            ) is None && output_planned(
                plan,
                *session,
                *submission,
                *run,
                *output,
                *stream,
                now.second(),
            ),
        },
{
    if !is_output_bound(output, submission) || !is_session_expected(session, output) {
        return Err(OrmErrorCode::Conflict);
    }
    if !same_text(output.checkpoint_hash.as_str(), expected_checkpoint_hash) {
        return Err(OrmErrorCode::Conflict);
    }
    let message_sequence: i64 = match session.message_head.checked_add(1) {
        Some(sequence) => sequence,
        None => return Err(OrmErrorCode::InternalError),
    };
    let event_sequence: i64 = match session.stream_head.checked_add(1) {
        Some(sequence) => sequence,
        None => return Err(OrmErrorCode::InternalError),
    };
    if output.blocks.len() as u64 >= i64::MAX as u64 {
        return Err(OrmErrorCode::InvalidInput);
    }
    let second: i64 = now.unix_timestamp();
    let announcement = PreparedAiInboxEvent {
        id: output.inbox_event_id,
        principal_kind: output.expected_owner_principal_kind.clone(),
        principal_subject: output.expected_owner_subject.clone(),
        scope: output.expected_scope.clone(),
        session_id: session.id,
        event_type: "assistant_message_completed".to_owned(),
        created_at: second,
    };
    proof {
        lemma_completed_event_type();
    }
    let inbox: InboxAppend = match append_inbox_event(stream, &announcement) {
        Ok(inbox) => inbox,
        Err(code) => return Err(code),
    };
    let blocks = planned_blocks(&output.blocks, output.message_id);
    Ok(
        OutputPlan {
            session: SessionAdvance {
                session_id: session.id,
                expected_row_version: session.row_version,
                message_head: message_sequence,
                stream_head: event_sequence,
                last_activity_at: second,
            },
            message: AiMessageRecord {
                id: output.message_id,
                session_id: session.id,
                sequence: message_sequence,
                message_role: "assistant".to_owned(),
                run_id: Some(submission.run_id),
                provider_kind: Some(output.provider_kind.clone()),
                provider_model: Some(output.provider_model.clone()),
                completion_state: "complete".to_owned(),
                finalized_at: Some(second),
                content_purged_at: None,
                has_protected_preview: true,
                block_count: output.blocks.len() as i64,
            },
            checkpoint: AiRunCheckpointRecord {
                id: output.message_id,
                run_id: submission.run_id,
                attempt_id: submission.attempt_id,
                lease_generation: submission.lease_generation,
                checkpoint_kind: "assistant_output_persisted".to_owned(),
                provider_response_id: clone_text_option(&output.provider_response_id),
                budget_reservation_id: Some(submission.budget_reservation_id),
                protected_state: None,
                assistant_message_id: Some(output.message_id),
                checkpoint_hash: output.checkpoint_hash.clone(),
            },
            blocks,
            event: AiSessionEventRecord {
                id: output.event_id,
                session_id: session.id,
                sequence: event_sequence,
                event_type: "assistant_message_completed".to_owned(),
                run_id: Some(submission.run_id),
                causation_id: Some(uuid_to_string(run.input_message_id)),
                correlation_id: output.correlation_id.clone(),
            },
            wakeup: AiSessionWakeup { session_id: session.id, sequence: event_sequence },
            inbox,
        },
    )
}

/// Rows that validating a persisted output reads, by the identities that the
/// submission determines. `blocks` are at most one more than the message
/// counts.
#[derive(Debug, PartialEq, Eq)]
pub struct OutputSnapshot {
    pub message: Option<AiMessageRecord>,
    pub checkpoints: Vec<AiRunCheckpointRecord>,
    pub blocks: Vec<AiMessageBlockRecord>,
    pub event: Option<AiSessionEventRecord>,
    pub inbox: Option<AiInboxEventRecord>,
}

/// Whether the rows are exactly a completed output of the submission.
pub open spec fn output_exists(
    snapshot: OutputSnapshot,
    submission: AiProviderBackgroundSubmissionRecord,
    run: AiRunRecord,
    message_id: Uuid,
    expected_checkpoint_hash: Seq<char>,
) -> bool {
    let message = snapshot.message->0;
    let checkpoint = snapshot.checkpoints@[0];
    let event = snapshot.event->0;
    let inbox = snapshot.inbox->0;
    &&& message.session_id == submission.session_id
    &&& message.run_id == Some(submission.run_id)
    &&& message.message_role@ == "assistant"@
    &&& text_option(message.provider_kind) == Some("openai"@)
    &&& text_option(message.provider_model) == Some(submission.provider_model@)
    &&& message.completion_state@ == "complete"@
    &&& message.finalized_at is Some
    &&& message.content_purged_at is None
    &&& message.block_count > 0
    &&& message.block_count == snapshot.blocks@.len()
    &&& forall|i: int|
        0 <= i < snapshot.blocks@.len() ==> block_placed(
            #[trigger] snapshot.blocks@[i],
            message_id,
            i,
        )
    &&& checkpoint.run_id == submission.run_id
    &&& checkpoint.attempt_id == submission.attempt_id
    &&& checkpoint.lease_generation == submission.lease_generation
    &&& checkpoint.checkpoint_kind@ == "assistant_output_persisted"@
    &&& text_option(checkpoint.provider_response_id) == text_option(
        submission.provider_response_id,
    )
    &&& checkpoint.budget_reservation_id == Some(submission.budget_reservation_id)
    &&& checkpoint.assistant_message_id == Some(message_id)
    &&& checkpoint.protected_state is None
    &&& checkpoint.checkpoint_hash@ == expected_checkpoint_hash
    &&& event.session_id == submission.session_id
    &&& event.event_type@ == "assistant_message_completed"@
    &&& event.run_id == Some(submission.run_id)
    &&& text_option(event.causation_id) == Some(uuid_text(run.input_message_id))
    &&& inbox.session_id == Some(submission.session_id)
    &&& inbox.event_type@ == "assistant_message_completed"@
}

/// Whether the block stands at this position of the message.
pub open spec fn block_placed(block: AiMessageBlockRecord, message_id: Uuid, index: int) -> bool {
    block.block_index == index && block.message_id == message_id
}

fn are_blocks_placed(blocks: &Vec<AiMessageBlockRecord>, message_id: Uuid) -> (result: bool)
    requires
        blocks@.len() <= i64::MAX,
    ensures
        result == forall|i: int|
            0 <= i < blocks@.len() ==> block_placed(#[trigger] blocks@[i], message_id, i),
{
    let mut i: usize = 0;
    while i < blocks.len()
        invariant
            i <= blocks@.len() <= i64::MAX,
            forall|k: int| 0 <= k < i ==> block_placed(#[trigger] blocks@[k], message_id, k),
        decreases blocks@.len() - i,
    {
        if blocks[i].block_index != i as i64 || blocks[i].message_id != message_id {
            assert(!block_placed(blocks@[i as int], message_id, i as int));
            return false;
        }
        i += 1;
    }
    true
}

/// Why the rows are not a completed output of the submission.
pub open spec fn existing_output_fault(
    snapshot: OutputSnapshot,
    submission: AiProviderBackgroundSubmissionRecord,
    run: AiRunRecord,
    message_id: Uuid,
    expected_checkpoint_hash: Seq<char>,
) -> Option<OrmErrorCode> {
    if snapshot.message is None {
        Some(OrmErrorCode::NotFound)
    } else if snapshot.checkpoints@.len() != 1 {
        Some(OrmErrorCode::Conflict)
    } else if snapshot.message->0.block_count == i64::MAX {
        Some(OrmErrorCode::InternalError)
    } else if snapshot.event is None || snapshot.inbox is None {
        Some(OrmErrorCode::NotFound)
    } else if !output_exists(snapshot, submission, run, message_id, expected_checkpoint_hash) {
        Some(OrmErrorCode::Conflict)
    } else {
        None
    }
}

/// Accepts exactly the rows of a completed output of the submission.
#[verifier::rlimit(30)]
pub fn validate_existing_background_output(
    snapshot: &OutputSnapshot,
    submission: &AiProviderBackgroundSubmissionRecord,
    run: &AiRunRecord,
    message_id: Uuid,
    expected_checkpoint_hash: &str,
) -> (result: Result<(), OrmErrorCode>)
    ensures
        match result {
            Ok(()) => existing_output_fault(
                *snapshot,
                *submission,
                *run,
                message_id,
                expected_checkpoint_hash@,
            ) is None,
            Err(code) => existing_output_fault(
                *snapshot,
                *submission,
                *run,
                message_id,
                expected_checkpoint_hash@,
            ) == Some(code),
        },
{
    let message: &AiMessageRecord = match &snapshot.message {
        Some(message) => message,
        None => return Err(OrmErrorCode::NotFound),
    };
    if snapshot.checkpoints.len() != 1 {
        return Err(OrmErrorCode::Conflict);
    }
    let checkpoint = &snapshot.checkpoints[0];
    if message.block_count == i64::MAX {
        return Err(OrmErrorCode::InternalError);
    }
    let event: &AiSessionEventRecord = match &snapshot.event {
        Some(event) => event,
        None => return Err(OrmErrorCode::NotFound),
    };
    let inbox: &AiInboxEventRecord = match &snapshot.inbox {
        Some(inbox) => inbox,
        None => return Err(OrmErrorCode::NotFound),
    };
    if message.block_count <= 0 || message.block_count as u64 != snapshot.blocks.len() as u64 {
        return Err(OrmErrorCode::Conflict);
    }
    let causation = uuid_to_string(run.input_message_id);
    let message_valid: bool = message.session_id == submission.session_id && same_id_option(
        message.run_id,
        Some(submission.run_id),
    ) && same_text(message.message_role.as_str(), "assistant") && option_is_text(
        &message.provider_kind,
        "openai",
    ) && option_is_text(&message.provider_model, submission.provider_model.as_str()) && same_text(
        message.completion_state.as_str(),
        "complete",
    ) && message.finalized_at.is_some() && message.content_purged_at.is_none() && are_blocks_placed(
        &snapshot.blocks,
        message_id,
    );
    let checkpoint_valid: bool = checkpoint.run_id == submission.run_id && checkpoint.attempt_id
        == submission.attempt_id && checkpoint.lease_generation == submission.lease_generation
        && same_text(checkpoint.checkpoint_kind.as_str(), "assistant_output_persisted")
        && same_text_option(&checkpoint.provider_response_id, &submission.provider_response_id)
        && same_id_option(
        checkpoint.budget_reservation_id,
        Some(submission.budget_reservation_id),
    ) && same_id_option(checkpoint.assistant_message_id, Some(message_id))
        && checkpoint.protected_state.is_none() && same_text(
        checkpoint.checkpoint_hash.as_str(),
        expected_checkpoint_hash,
    );
    let event_valid: bool = event.session_id == submission.session_id && same_text(
        event.event_type.as_str(),
        "assistant_message_completed",
    ) && same_id_option(event.run_id, Some(submission.run_id)) && option_is_text(
        &event.causation_id,
        causation.as_str(),
    ) && same_id_option(inbox.session_id, Some(submission.session_id)) && same_text(
        inbox.event_type.as_str(),
        "assistant_message_completed",
    );
    if message_valid && checkpoint_valid && event_valid {
        Ok(())
    } else {
        Err(OrmErrorCode::Conflict)
    }
}

/// What is persisted is found again: the rows that a plan writes are accepted
/// as the completed output of the same submission.
pub proof fn persisted_output_is_accepted(
    plan: OutputPlan,
    snapshot: OutputSnapshot,
    session: AiSessionRecord,
    submission: AiProviderBackgroundSubmissionRecord,
    later_submission: AiProviderBackgroundSubmissionRecord,
    run: AiRunRecord,
    later_run: AiRunRecord,
    output: PreparedProviderOutput,
    stream: Option<AiInboxStreamRecord>,
    expected_checkpoint_hash: Seq<char>,
    second: int,
)
    requires
        output_fault(session, submission, output, expected_checkpoint_hash, stream) is None,
        output_planned(plan, session, submission, run, output, stream, second),
        session.id == submission.session_id,
        snapshot.message == Some(plan.message),
        snapshot.checkpoints@ == seq![plan.checkpoint],
        snapshot.blocks@ == plan.blocks@,
        snapshot.event == Some(plan.event),
        snapshot.inbox == Some(plan.inbox.event),
        later_submission.session_id == submission.session_id,
        later_submission.run_id == submission.run_id,
        later_submission.attempt_id == submission.attempt_id,
        later_submission.lease_generation == submission.lease_generation,
        later_submission.provider_model == submission.provider_model,
        later_submission.provider_response_id == submission.provider_response_id,
        later_submission.budget_reservation_id == submission.budget_reservation_id,
        later_run.input_message_id == run.input_message_id,
    ensures
        existing_output_fault(
            snapshot,
            later_submission,
            later_run,
            output.message_id,
            expected_checkpoint_hash,
        ) is None,
{
    assert forall|i: int| 0 <= i < snapshot.blocks@.len() implies block_placed(
        #[trigger] snapshot.blocks@[i],
        output.message_id,
        i,
    ) by {
        assert(block_persisted(plan.blocks@[i], output.blocks@[i], output.message_id, i));
    }
}

/// An output is persisted exactly where it is the submission's own, under the
/// identities that the submission determines, has content, and its session is
/// still open for the same owner and scope and can take one message more.
pub proof fn outputs_belong_to_their_submission(
    session: AiSessionRecord,
    submission: AiProviderBackgroundSubmissionRecord,
    output: PreparedProviderOutput,
    expected_checkpoint_hash: Seq<char>,
    stream: Option<AiInboxStreamRecord>,
)
    ensures
        output_fault(session, submission, output, expected_checkpoint_hash, stream) is None <==> {
            &&& 0 < output.blocks@.len() < i64::MAX
            &&& output.message_id == terminal_id_value(submission.id, "assistant-message"@)
            &&& output.event_id == terminal_id_value(submission.id, "session-event"@)
            &&& output.inbox_event_id == terminal_id_value(submission.id, "inbox-event"@)
            &&& output.provider_kind@ == "openai"@
            &&& output.provider_model@ == submission.provider_model@
            &&& text_option(output.provider_response_id) == text_option(
                submission.provider_response_id,
            )
            &&& output.budget_reservation_id == submission.budget_reservation_id
            &&& output.correlation_id@ == uuid_text(submission.id)
            &&& output.checkpoint_hash@ == expected_checkpoint_hash
            &&& session.state@ == "active"@ && session.deleted_at is None
            &&& session.owner_principal_kind@ == output.expected_owner_principal_kind@
            &&& session.owner_subject@ == output.expected_owner_subject@
            &&& session.scope_kind@ == output.expected_scope.kind@
            &&& session.scope_id@ == output.expected_scope.id@
            &&& text_option(session.tenant_id) == text_option(output.expected_scope.tenant_id)
            &&& session.message_head < i64::MAX && session.stream_head < i64::MAX
            &&& bounded_text(output.expected_owner_principal_kind@, 128)
            &&& bounded_text(output.expected_owner_subject@, 512)
            &&& stream is Some ==> stream_of(
                stream->0,
                output.expected_owner_principal_kind@,
                output.expected_owner_subject@,
            ) && stream->0.stream_head < i64::MAX
        },
{
}

/// A persisted output is one complete assistant message at the head of its
/// session, with every block in order, one checkpoint of the attempt that
/// names it, and one event that announces it to the session and its owner.
pub proof fn persisted_outputs_say_what_they_are(
    plan: OutputPlan,
    session: AiSessionRecord,
    submission: AiProviderBackgroundSubmissionRecord,
    run: AiRunRecord,
    output: PreparedProviderOutput,
    stream: Option<AiInboxStreamRecord>,
    second: int,
    i: int,
)
    requires
        output_planned(plan, session, submission, run, output, stream, second),
    ensures
        plan.session.session_id == session.id,
        plan.session.expected_row_version == session.row_version,
        plan.session.message_head == session.message_head + 1,
        plan.session.stream_head == session.stream_head + 1,
        plan.session.last_activity_at == second,
        plan.message.id == output.message_id,
        plan.message.session_id == session.id,
        plan.message.sequence == plan.session.message_head,
        plan.message.message_role@ == "assistant"@,
        plan.message.run_id is Some && plan.message.run_id->0 == submission.run_id,
        plan.message.provider_kind is Some && plan.message.provider_kind->0@
            == output.provider_kind@,
        plan.message.provider_model is Some && plan.message.provider_model->0@
            == output.provider_model@,
        plan.message.completion_state@ == "complete"@,
        plan.message.finalized_at is Some && plan.message.finalized_at->0 == second,
        plan.message.content_purged_at is None,
        plan.message.block_count == output.blocks@.len(),
        plan.checkpoint.id == output.message_id,
        plan.checkpoint.run_id == submission.run_id,
        plan.checkpoint.attempt_id == submission.attempt_id,
        plan.checkpoint.lease_generation == submission.lease_generation,
        plan.checkpoint.checkpoint_kind@ == "assistant_output_persisted"@,
        text_option(plan.checkpoint.provider_response_id) == text_option(
            output.provider_response_id,
        ),
        plan.checkpoint.budget_reservation_id is Some && plan.checkpoint.budget_reservation_id->0
            == submission.budget_reservation_id,
        plan.checkpoint.assistant_message_id is Some && plan.checkpoint.assistant_message_id->0
            == output.message_id,
        plan.checkpoint.protected_state is None,
        plan.checkpoint.checkpoint_hash@ == output.checkpoint_hash@,
        plan.blocks@.len() == output.blocks@.len(),
        0 <= i < plan.blocks@.len() ==> {
            &&& plan.blocks@[i].id == output.blocks@[i].id
            &&& plan.blocks@[i].message_id == output.message_id
            &&& plan.blocks@[i].block_index == i
            &&& plan.blocks@[i].block_kind@ == output.blocks@[i].kind@
            &&& plan.blocks@[i].byte_count == output.blocks@[i].byte_count
            &&& plan.blocks@[i].line_count == output.blocks@[i].line_count
        },
        plan.event.id == output.event_id,
        plan.event.session_id == session.id,
        plan.event.sequence == plan.session.stream_head,
        plan.event.event_type@ == "assistant_message_completed"@,
        plan.event.run_id is Some && plan.event.run_id->0 == submission.run_id,
        plan.event.causation_id is Some && plan.event.causation_id->0@ == uuid_text(
            run.input_message_id,
        ),
        plan.event.correlation_id@ == output.correlation_id@,
        plan.wakeup.session_id == session.id,
        plan.wakeup.sequence == plan.session.stream_head,
        plan.inbox.event.id == output.inbox_event_id,
        plan.inbox.event.principal_kind@ == output.expected_owner_principal_kind@,
        plan.inbox.event.principal_subject@ == output.expected_owner_subject@,
        plan.inbox.event.scope_kind@ == output.expected_scope.kind@,
        plan.inbox.event.scope_id@ == output.expected_scope.id@,
        plan.inbox.event.session_id is Some && plan.inbox.event.session_id->0 == session.id,
        plan.inbox.event.event_type@ == "assistant_message_completed"@,
{
    if 0 <= i < plan.blocks@.len() {
        assert(block_persisted(plan.blocks@[i], output.blocks@[i], output.message_id, i));
    }
}

/// A stored output is accepted exactly where it is one complete message of the
/// submission with all of its blocks in place, one checkpoint of its attempt
/// for that message, and both events that announce it.
pub proof fn accepted_outputs_are_whole(
    snapshot: OutputSnapshot,
    submission: AiProviderBackgroundSubmissionRecord,
    run: AiRunRecord,
    message_id: Uuid,
    expected_checkpoint_hash: Seq<char>,
)
    ensures
        existing_output_fault(
            snapshot,
            submission,
            run,
            message_id,
            expected_checkpoint_hash,
        ) is None <==> {
            let message = snapshot.message->0;
            let checkpoint = snapshot.checkpoints@[0];
            let event = snapshot.event->0;
            let inbox = snapshot.inbox->0;
            &&& snapshot.message is Some && snapshot.checkpoints@.len() == 1
            &&& snapshot.event is Some && snapshot.inbox is Some
            &&& message.session_id == submission.session_id
            &&& message.run_id is Some && message.run_id->0 == submission.run_id
            &&& message.message_role@ == "assistant"@ && message.completion_state@ == "complete"@
            &&& message.provider_kind is Some && message.provider_kind->0@ == "openai"@
            &&& message.provider_model is Some && message.provider_model->0@
                == submission.provider_model@
            &&& message.finalized_at is Some && message.content_purged_at is None
            &&& 0 < message.block_count < i64::MAX
            &&& snapshot.blocks@.len() == message.block_count
            &&& forall|i: int|
                0 <= i < snapshot.blocks@.len() ==> (#[trigger] snapshot.blocks@[i]).block_index
                    == i && snapshot.blocks@[i].message_id == message_id
            &&& checkpoint.run_id == submission.run_id
            &&& checkpoint.attempt_id == submission.attempt_id
            &&& checkpoint.lease_generation == submission.lease_generation
            &&& checkpoint.checkpoint_kind@ == "assistant_output_persisted"@
            &&& text_option(checkpoint.provider_response_id) == text_option(
                submission.provider_response_id,
            )
            &&& checkpoint.budget_reservation_id is Some && checkpoint.budget_reservation_id->0
                == submission.budget_reservation_id
            &&& checkpoint.assistant_message_id is Some && checkpoint.assistant_message_id->0
                == message_id
            &&& checkpoint.protected_state is None
            &&& checkpoint.checkpoint_hash@ == expected_checkpoint_hash
            &&& event.session_id == submission.session_id
            &&& event.event_type@ == "assistant_message_completed"@
            &&& event.run_id is Some && event.run_id->0 == submission.run_id
            &&& event.causation_id is Some && event.causation_id->0@ == uuid_text(
                run.input_message_id,
            )
            &&& inbox.session_id is Some && inbox.session_id->0 == submission.session_id
            &&& inbox.event_type@ == "assistant_message_completed"@
        },
{
    if output_exists(snapshot, submission, run, message_id, expected_checkpoint_hash) {
        assert forall|i: int| 0 <= i < snapshot.blocks@.len() implies (
        #[trigger] snapshot.blocks@[i]).block_index == i && snapshot.blocks@[i].message_id
            == message_id by {
            assert(block_placed(snapshot.blocks@[i], message_id, i));
        }
    }
}

/// An output is refused for what is wrong: another submission's, owner's, or
/// hash is a conflict, an unusable owner or too many blocks are invalid input,
/// a full session or a foreign stream is a fault of the store.
pub proof fn output_faults_say_what_is_wrong(
    session: AiSessionRecord,
    submission: AiProviderBackgroundSubmissionRecord,
    output: PreparedProviderOutput,
    hash: Seq<char>,
    stream: Option<AiInboxStreamRecord>,
    snapshot: OutputSnapshot,
    run: AiRunRecord,
    message_id: Uuid,
)
    ensures
        ({
            let fault = output_fault(session, submission, output, hash, stream);
            let fits = output_binds(output, submission) && session_expects(session, output)
                && output.checkpoint_hash@ == hash;
            let room = session.message_head < i64::MAX && session.stream_head < i64::MAX;
            let named = bounded_text(output.expected_owner_principal_kind@, 128) && bounded_text(
                output.expected_owner_subject@,
                512,
            );
            &&& fault == Some(OrmErrorCode::Conflict) <==> !fits
            &&& fits && !room ==> fault == Some(OrmErrorCode::InternalError)
            &&& fits && room && (output.blocks@.len() >= i64::MAX || !named) ==> fault == Some(
                OrmErrorCode::InvalidInput,
            )
            &&& fits && room && output.blocks@.len() < i64::MAX && named && fault is Some ==> fault
                == Some(OrmErrorCode::InternalError)
        }),
        ({
            let fault = existing_output_fault(snapshot, submission, run, message_id, hash);
            &&& snapshot.message is None ==> fault == Some(OrmErrorCode::NotFound)
            &&& snapshot.message is Some && snapshot.checkpoints@.len() != 1 ==> fault == Some(
                OrmErrorCode::Conflict,
            )
            &&& snapshot.message is Some && snapshot.checkpoints@.len() == 1 ==> {
                let counted = snapshot.message->0.block_count < i64::MAX;
                let announced = snapshot.event is Some && snapshot.inbox is Some;
                &&& !counted ==> fault == Some(OrmErrorCode::InternalError)
                &&& counted && !announced ==> fault == Some(OrmErrorCode::NotFound)
                &&& counted && announced && fault is Some ==> fault == Some(OrmErrorCode::Conflict)
            }
        }),
{
}

} // verus!
