//! Adoption of completed tool batches.
//!
//! A batch is adopted only after its checkpoint, its settled budget, every
//! durable tool call with its egress decision, and for a stateless chain every
//! historical call, have been checked against each other. Nothing is executed
//! again.

use crate::access::{AiRunLease, reference_text, valid_reference};
use crate::budget::amounts::{StoredAmounts, non_negative};
use crate::budget::rows::{AiBudgetReservationRecord, StoredActual, actual_columns, actual_present};
use crate::checkpoints::continuation::{
    AiAgentContinuation, ModelInputBlock, RoutedTransfer, StatelessTool, is_some_tool_transfer,
    is_tool_transfer, transfers_some_tool, transfers_tool,
};
use crate::coordinator::AiRuleRunUsage;
use crate::digest::{
    Uuid, hex_text, parsed_uuid, sha256_digest, uuid_parse, uuid_text, uuid_to_string,
};
use crate::egress::{
    AiEgressEventRecord, AiEgressManifest, column_holds, same_id_option, same_manifest,
};
use crate::error::{AiError, ErrorModel, accepted_or, outcome, refusal};
use crate::json::{canonical_json_bytes, canonical_json_hash, json_equal, same_json};
use crate::principal::{AiScope, ScopeModel, principal_reference_kind, same_scope};
use crate::provider::{ProviderKind, classification_text, classification_value, provider_kind_text};
use crate::text::{
    blank, byte_len, clone_text_option, is_blank, option_is_text, same_text, same_text_option,
    text_len, text_option,
};
use vstd::prelude::*;

verus! {

/// One persisted coordinator checkpoint.
#[derive(Debug, PartialEq, Eq)]
pub struct AiRunCheckpointRecord {
    pub id: Uuid,
    pub run_id: Uuid,
    pub attempt_id: Uuid,
    pub lease_generation: i64,
    pub checkpoint_kind: String,
    pub provider_response_id: Option<String>,
    pub budget_reservation_id: Option<Uuid>,
    /// Encoded protected state.
    pub protected_state: Option<Vec<u8>>,
    pub assistant_message_id: Option<Uuid>,
    pub checkpoint_hash: String,
}

/// One persisted tool call.
#[derive(Debug, PartialEq, Eq)]
pub struct AiToolCallRecord {
    pub id: Uuid,
    pub run_id: Uuid,
    pub lease_generation: i64,
    pub provider_call_id: String,
    pub provider_kind: Option<String>,
    pub provider_model: Option<String>,
    pub provider_response_id: Option<String>,
    pub budget_reservation_id: Option<Uuid>,
    pub provider_turn_index: i64,
    pub tool_call_index: i64,
    pub tool_id: String,
    pub tool_fingerprint: String,
    pub argument_hash: String,
    pub state: String,
    pub result_egress_manifest_hash: Option<String>,
    pub result_egress_decision_id: Option<Uuid>,
    pub authorization_code: Option<String>,
    pub disclosure_schema_fingerprint: Option<String>,
    pub result_classification: Option<String>,
    pub authorization_policy_version: Option<String>,
    pub authorization_state_digest: Option<String>,
    pub completed_at: Option<i64>,
    pub correlation_id: Option<String>,
}

/// The run step of a tool call.
#[derive(Debug, PartialEq, Eq)]
pub struct AiRunStepRecord {
    pub id: Uuid,
    pub run_id: Uuid,
    pub lease_generation: i64,
    pub state: String,
    pub finished_at: Option<i64>,
}

/// One tool call as the provider result recorded it.
#[derive(Debug, PartialEq, Eq)]
pub struct ProviderToolSnapshot {
    pub call_id: String,
    pub tool_id: String,
    pub provider_name: Option<String>,
    pub tool_fingerprint: String,
    pub arguments: Vec<u8>,
}

/// The provider result inside a checkpoint.
#[derive(Debug, PartialEq, Eq)]
pub struct ProviderResultSnapshot {
    pub format_version: u32,
    pub session_id: Uuid,
    pub run_id: Uuid,
    pub attempt_id: Uuid,
    pub lease_generation: i64,
    pub provider_kind: ProviderKind,
    pub provider_model: String,
    pub provider_response_id: Option<String>,
    pub budget_reservation_id: Uuid,
    pub previous_response_id: Option<String>,
    pub tool_calls: Vec<ProviderToolSnapshot>,
}

/// One completed tool inside a checkpoint.
#[derive(Debug, PartialEq, Eq)]
pub struct ToolResultSnapshot {
    pub id: Uuid,
    pub provider_call_id: String,
    pub state: String,
    pub model_input: ModelInputBlock,
    pub egress_manifest: AiEgressManifest,
}

/// The opened state of a checkpoint.
#[derive(Debug, PartialEq, Eq)]
pub struct CoordinatorCheckpointPayload {
    pub format_version: u32,
    pub checkpoint_kind: String,
    pub provider_turns: u32,
    pub total_tool_calls: u32,
    pub scope: AiScope,
    pub rule_fingerprint: String,
    pub rule_usage: AiRuleRunUsage,
    pub correlation_id: String,
    pub provider_result: ProviderResultSnapshot,
    pub completed_tools: Vec<ToolResultSnapshot>,
}

/// Whether the checkpoint is a tool batch of the lease's run with a settled
/// call and a protected state.
pub open spec fn checkpoint_adoptable(checkpoint: AiRunCheckpointRecord, lease: AiRunLease) -> bool {
    &&& checkpoint.provider_response_id matches Some(response) ==> reference_text(response@)
    &&& checkpoint.budget_reservation_id is Some
    &&& checkpoint.protected_state is Some
    &&& checkpoint.run_id == lease.run_id
    &&& checkpoint.checkpoint_kind@ == "tool_batch_persisted"@
    &&& checkpoint.assistant_message_id is None
}

/// Accepts an adoptable checkpoint and returns its budget reservation.
pub fn check_adoptable(checkpoint: &Option<AiRunCheckpointRecord>, lease: &AiRunLease) -> (result:
    Result<Uuid, AiError>)
    ensures
        refusal(result) == match checkpoint {
            None => Some(ErrorModel::NotFound),
            Some(row) => if checkpoint_adoptable(*row, *lease) {
                None
            } else {
                Some(ErrorModel::Conflict)
            },
        },
        result matches Ok(budget) ==> checkpoint->0.budget_reservation_id == Some(budget),
{
    let row: &AiRunCheckpointRecord = match checkpoint {
        Some(row) => row,
        None => return Err(AiError::NotFound),
    };
    match &row.provider_response_id {
        Some(response) => {
            if !valid_reference(response.as_str()) {
                return Err(AiError::Conflict);
            }
        },
        None => {},
    }
    let budget: Uuid = match row.budget_reservation_id {
        Some(budget) => budget,
        None => return Err(AiError::Conflict),
    };
    if row.protected_state.is_none() || row.run_id != lease.run_id || !same_text(
        row.checkpoint_kind.as_str(),
        "tool_batch_persisted",
    ) || row.assistant_message_id.is_some() {
        return Err(AiError::Conflict);
    }
    Ok(budget)
}

/// Whether settled columns record exactly one run with consistent usage.
pub open spec fn usage_settled(actual: StoredActual, cached: Option<i64>) -> bool {
    &&& actual_present(actual)
    &&& non_negative(actual_columns(actual))
    &&& cached matches Some(tokens) && 0 <= tokens <= actual_columns(actual).input_tokens
    &&& actual_columns(actual).runs == 1
}

/// Whether the reservation is the committed budget of this attempt.
pub open spec fn budget_settles(
    budget: AiBudgetReservationRecord,
    lease: AiRunLease,
    attempt_id: Uuid,
    lease_generation: i64,
    scope: ScopeModel,
    principal_kind: Seq<char>,
    provider_kind: Seq<char>,
    provider_model: Seq<char>,
) -> bool {
    &&& budget.session_id == lease.session_id
    &&& budget.run_id == lease.run_id
    &&& budget.attempt_id == attempt_id
    &&& budget.lease_generation == lease_generation
    &&& budget.scope_kind@ == scope.kind
    &&& budget.scope_id@ == scope.id
    &&& text_option(budget.tenant_id) == scope.tenant_id
    &&& budget.principal_kind@ == principal_kind
    &&& budget.principal_subject@ == lease.principal_reference.subject@
    &&& budget.provider_kind@ == provider_kind
    &&& budget.provider_model@ == provider_model
    &&& !blank(budget.pricing_policy_version@)
    &&& budget.state@ == "committed"@
    &&& non_negative(budget.reserved)
    &&& budget.reserved.runs == 1
    &&& usage_settled(budget.actual, budget.actual_cached_input_tokens)
    &&& budget.reconciled_at is Some
}

fn is_usage_settled(actual: StoredActual, cached: Option<i64>) -> (result: bool)
    ensures
        result == usage_settled(actual, cached),
{
    match (
        actual.input_tokens,
        cached,
        actual.output_tokens,
        actual.tool_units,
        actual.image_units,
        actual.cost_microunits,
        actual.runs,
    ) {
        (
            Some(input),
            Some(cached),
            Some(output),
            Some(tools),
            Some(images),
            Some(cost),
            Some(runs),
        ) => runs == 1 && input >= 0 && cached >= 0 && cached <= input && output >= 0 && tools >= 0
            && images >= 0 && cost >= 0,
        _ => false,
    }
}

/// Whether the reservation is the committed budget of this attempt.
pub fn checkpoint_budget_matches(
    budget: &AiBudgetReservationRecord,
    lease: &AiRunLease,
    attempt_id: Uuid,
    lease_generation: i64,
    scope: &AiScope,
    principal_kind: &str,
    provider_kind: &str,
    provider_model: &str,
) -> (result: bool)
    ensures
        result == budget_settles(
            *budget,
            *lease,
            attempt_id,
            lease_generation,
            scope@,
            principal_kind@,
            provider_kind@,
            provider_model@,
        ),
{
    let reserved: StoredAmounts = budget.reserved;
    budget.session_id == lease.session_id && budget.run_id == lease.run_id && budget.attempt_id
        == attempt_id && budget.lease_generation == lease_generation && same_text(
        budget.scope_kind.as_str(),
        scope.kind.as_str(),
    ) && same_text(budget.scope_id.as_str(), scope.id.as_str()) && same_text_option(
        &budget.tenant_id,
        &scope.tenant_id,
    ) && same_text(budget.principal_kind.as_str(), principal_kind) && same_text(
        budget.principal_subject.as_str(),
        lease.principal_reference.subject.as_str(),
    ) && same_text(budget.provider_kind.as_str(), provider_kind) && same_text(
        budget.provider_model.as_str(),
        provider_model,
    ) && !is_blank(budget.pricing_policy_version.as_str()) && same_text(
        budget.state.as_str(),
        "committed",
    ) && reserved.input_tokens >= 0 && reserved.output_tokens >= 0 && reserved.tool_units >= 0
        && reserved.image_units >= 0 && reserved.cost_microunits >= 0 && reserved.runs == 1
        && is_usage_settled(budget.actual, budget.actual_cached_input_tokens)
        && budget.reconciled_at.is_some()
}

/// Accepts the committed budget of a checkpoint.
pub fn check_adoption_budget(
    reservation: &Option<AiBudgetReservationRecord>,
    lease: &AiRunLease,
    checkpoint: &AiRunCheckpointRecord,
    scope: &AiScope,
) -> (result: Result<(), AiError>)
    ensures
        refusal(result) == match reservation {
            None => Some(ErrorModel::NotFound),
            Some(row) => if budget_settles(
                *row,
                *lease,
                checkpoint.attempt_id,
                checkpoint.lease_generation,
                scope@,
                lease.principal_reference@.kind,
                row.provider_kind@,
                row.provider_model@,
            ) {
                None
            } else {
                Some(ErrorModel::Conflict)
            },
        },
{
    let row: &AiBudgetReservationRecord = match reservation {
        Some(row) => row,
        None => return Err(AiError::NotFound),
    };
    let kind = principal_reference_kind(&lease.principal_reference);
    if checkpoint_budget_matches(
        row,
        lease,
        checkpoint.attempt_id,
        checkpoint.lease_generation,
        scope,
        kind.as_str(),
        row.provider_kind.as_str(),
        row.provider_model.as_str(),
    ) {
        Ok(())
    } else {
        Err(AiError::Conflict)
    }
}

/// Accepts a checkpoint whose stored hash is the recomputed one.
pub fn check_checkpoint_hash(checkpoint: &AiRunCheckpointRecord, expected: &str) -> (result: Result<
    (),
    AiError,
>)
    ensures
        outcome(result) == accepted_or(
            checkpoint.checkpoint_hash@ == expected@,
            ErrorModel::Conflict,
        ),
{
    if same_text(checkpoint.checkpoint_hash.as_str(), expected) {
        Ok(())
    } else {
        Err(AiError::Conflict)
    }
}

/// Whether the opened state is a tool batch of this scope whose counters and
/// rule usage agree.
pub open spec fn payload_admitted(payload: CoordinatorCheckpointPayload, scope: ScopeModel) -> bool {
    &&& payload.format_version == 2
    &&& payload.checkpoint_kind@ == "tool_batch_persisted"@
    &&& payload.scope@ == scope
    &&& byte_len(payload.rule_fingerprint@) == 64
    &&& payload.rule_usage.provider_calls == payload.provider_turns
    &&& payload.rule_usage.steps == payload.provider_turns + payload.total_tool_calls
    &&& reference_text(payload.correlation_id@)
    &&& payload.provider_turns > 0
    &&& payload.total_tool_calls > 0
    &&& 0 < payload.completed_tools@.len() <= 4_096
    &&& payload.completed_tools@.len() == payload.provider_result.tool_calls@.len()
}

/// Accepts exactly the admitted states.
pub fn check_payload(payload: &CoordinatorCheckpointPayload, scope: &AiScope) -> (result: Result<
    (),
    AiError,
>)
    ensures
        outcome(result) == accepted_or(payload_admitted(*payload, scope@), ErrorModel::Conflict),
{
    if payload.format_version == 2 && same_text(
        payload.checkpoint_kind.as_str(),
        "tool_batch_persisted",
    ) && same_scope(&payload.scope, scope) && text_len(payload.rule_fingerprint.as_str()) == 64
        && payload.rule_usage.provider_calls == payload.provider_turns as u64
        && payload.rule_usage.steps == payload.provider_turns as u64
        + payload.total_tool_calls as u64 && valid_reference(payload.correlation_id.as_str())
        && payload.provider_turns != 0 && payload.total_tool_calls != 0
        && payload.completed_tools.len() != 0 && payload.completed_tools.len() <= 4_096
        && payload.completed_tools.len() == payload.provider_result.tool_calls.len() {
        Ok(())
    } else {
        Err(AiError::Conflict)
    }
}

/// Whether the recorded provider result is the one that the checkpoint and its
/// budget belong to.
pub open spec fn provider_snapshot_bound(
    provider: ProviderResultSnapshot,
    lease: AiRunLease,
    checkpoint: AiRunCheckpointRecord,
    reservation: AiBudgetReservationRecord,
) -> bool {
    &&& provider.format_version == 1
    &&& provider.session_id == lease.session_id
    &&& provider.run_id == lease.run_id
    &&& provider.attempt_id == checkpoint.attempt_id
    &&& provider.lease_generation == checkpoint.lease_generation
    &&& provider_kind_text(provider.provider_kind) == reservation.provider_kind@
    &&& provider.provider_model@ == reservation.provider_model@
    &&& text_option(provider.provider_response_id) == text_option(checkpoint.provider_response_id)
    &&& Some(provider.budget_reservation_id) == checkpoint.budget_reservation_id
    &&& provider.tool_calls@.len() > 0
    &&& provider.previous_response_id matches Some(previous) ==> reference_text(previous@)
}

/// Accepts exactly the bound provider results.
pub fn check_provider_snapshot(
    provider: &ProviderResultSnapshot,
    lease: &AiRunLease,
    checkpoint: &AiRunCheckpointRecord,
    reservation: &AiBudgetReservationRecord,
) -> (result: Result<(), AiError>)
    ensures
        outcome(result) == accepted_or(
            provider_snapshot_bound(*provider, *lease, *checkpoint, *reservation),
            ErrorModel::Conflict,
        ),
{
    let previous_valid: bool = match &provider.previous_response_id {
        Some(previous) => valid_reference(previous.as_str()),
        None => true,
    };
    if provider.format_version == 1 && provider.session_id == lease.session_id && provider.run_id
        == lease.run_id && provider.attempt_id == checkpoint.attempt_id && provider.lease_generation
        == checkpoint.lease_generation && same_text(
        provider.provider_kind.as_str(),
        reservation.provider_kind.as_str(),
    ) && same_text(provider.provider_model.as_str(), reservation.provider_model.as_str())
        && same_text_option(&provider.provider_response_id, &checkpoint.provider_response_id)
        && same_id_option(
        Some(provider.budget_reservation_id),
        checkpoint.budget_reservation_id,
    ) && provider.tool_calls.len() > 0 && previous_valid {
        Ok(())
    } else {
        Err(AiError::Conflict)
    }
}

/// Whether the continuation chains exactly this batch: to the retained
/// response, or without one through a complete stateless history.
pub open spec fn continuation_chains(
    continuation: AiAgentContinuation,
    payload: CoordinatorCheckpointPayload,
    response_id: Option<Seq<char>>,
) -> bool {
    let batch = payload.completed_tools@.len();
    &&& text_option(continuation.provider_response_id) == response_id
    &&& continuation.input@.len() == batch
    &&& continuation.transfers@.len() == batch
    &&& match continuation.stateless_evidence {
        None => response_id is Some,
        Some(evidence) => {
            &&& response_id is None
            &&& payload.provider_result.previous_response_id is None
            &&& evidence.provider_turns == payload.provider_turns
            &&& evidence.tools@.len() == payload.total_tool_calls
            &&& evidence.current_tool_count == batch
            &&& evidence.tools@.len() == continuation.replay_transfers@.len()
                + continuation.transfers@.len()
        },
    }
}

/// Accepts exactly the chaining continuations.
pub fn check_continuation(
    continuation: &AiAgentContinuation,
    payload: &CoordinatorCheckpointPayload,
    response_id: &Option<String>,
) -> (result: Result<(), AiError>)
    ensures
        outcome(result) == accepted_or(
            continuation_chains(*continuation, *payload, text_option(*response_id)),
            ErrorModel::Conflict,
        ),
{
    let batch: usize = payload.completed_tools.len();
    if !same_text_option(&continuation.provider_response_id, response_id)
        || continuation.input.len() != batch || continuation.transfers.len() != batch {
        return Err(AiError::Conflict);
    }
    match &continuation.stateless_evidence {
        None => {
            if response_id.is_some() {
                Ok(())
            } else {
                Err(AiError::Conflict)
            }
        },
        Some(evidence) => {
            let tools: usize = evidence.tools.len();
            if response_id.is_none() && payload.provider_result.previous_response_id.is_none()
                && evidence.provider_turns == payload.provider_turns && tools as u128
                == payload.total_tool_calls as u128 && evidence.current_tool_count == batch
                && tools as u128 == continuation.replay_transfers.len() as u128
                + continuation.transfers.len() as u128 {
                Ok(())
            } else {
                Err(AiError::Conflict)
            }
        },
    }
}

/// What every durable row of the batch is checked against.
#[derive(Debug, PartialEq, Eq)]
pub struct AdoptionFence {
    pub run_id: Uuid,
    pub lease_generation: i64,
    pub scope: AiScope,
    pub principal_subject: String,
    pub provider_kind: String,
    pub provider_model: String,
    pub provider_response_id: Option<String>,
    pub budget_reservation_id: Uuid,
    pub correlation_id: String,
    pub provider_turn_index: i64,
}

/// Builds the fence of a checked checkpoint.
pub fn adoption_fence(
    lease: &AiRunLease,
    checkpoint: &AiRunCheckpointRecord,
    reservation: &AiBudgetReservationRecord,
    payload: &CoordinatorCheckpointPayload,
    budget_reservation_id: Uuid,
    scope: &AiScope,
) -> (fence: AdoptionFence)
    requires
        payload.provider_turns > 0,
    ensures
        fence.run_id == lease.run_id,
        fence.lease_generation == checkpoint.lease_generation,
        fence.scope == *scope,
        fence.principal_subject == lease.principal_reference.subject,
        fence.provider_kind == reservation.provider_kind,
        fence.provider_model == reservation.provider_model,
        fence.provider_response_id == checkpoint.provider_response_id,
        fence.budget_reservation_id == budget_reservation_id,
        fence.correlation_id == payload.correlation_id,
        fence.provider_turn_index == payload.provider_turns - 1,
{
    AdoptionFence {
        run_id: lease.run_id,
        lease_generation: checkpoint.lease_generation,
        scope: scope.clone(),
        principal_subject: lease.principal_reference.subject.clone(),
        provider_kind: reservation.provider_kind.clone(),
        provider_model: reservation.provider_model.clone(),
        provider_response_id: clone_text_option(&checkpoint.provider_response_id),
        budget_reservation_id,
        correlation_id: payload.correlation_id.clone(),
        provider_turn_index: (payload.provider_turns - 1) as i64,
    }
}

/// Whether two blocks of model input are equal.
pub open spec fn blocks_equal(left: ModelInputBlock, right: ModelInputBlock) -> bool {
    match (left, right) {
        (
            ModelInputBlock::ToolResult { call_id, tool_id, output },
            ModelInputBlock::ToolResult {
                call_id: right_call,
                tool_id: right_tool,
                output: right_output,
            },
        ) => call_id@ == right_call@ && tool_id@ == right_tool@ && json_equal(
            output@,
            right_output@,
        ),
        (
            ModelInputBlock::Json { value },
            ModelInputBlock::Json { value: right_value },
        ) => json_equal(value@, right_value@),
        (
            ModelInputBlock::Attachment { encoding },
            ModelInputBlock::Attachment { encoding: right_encoding },
        ) => json_equal(encoding@, right_encoding@),
        (
            ModelInputBlock::Other { encoding },
            ModelInputBlock::Other { encoding: right_encoding },
        ) => json_equal(encoding@, right_encoding@),
        _ => false,
    }
}

/// Whether two blocks of model input are equal.
pub fn same_block(left: &ModelInputBlock, right: &ModelInputBlock) -> (result: bool)
    ensures
        result == blocks_equal(*left, *right),
{
    match (left, right) {
        (
            ModelInputBlock::ToolResult { call_id, tool_id, output },
            ModelInputBlock::ToolResult {
                call_id: right_call,
                tool_id: right_tool,
                output: right_output,
            },
        ) => same_text(call_id.as_str(), right_call.as_str()) && same_text(
            tool_id.as_str(),
            right_tool.as_str(),
        ) && same_json(output.as_slice(), right_output.as_slice()),
        (
            ModelInputBlock::Json { value },
            ModelInputBlock::Json { value: right_value },
        ) => same_json(value.as_slice(), right_value.as_slice()),
        (
            ModelInputBlock::Attachment { encoding },
            ModelInputBlock::Attachment { encoding: right_encoding },
        ) => same_json(encoding.as_slice(), right_encoding.as_slice()),
        (
            ModelInputBlock::Other { encoding },
            ModelInputBlock::Other { encoding: right_encoding },
        ) => same_json(encoding.as_slice(), right_encoding.as_slice()),
        _ => false,
    }
}

/// What has been adopted so far.
#[derive(Debug, PartialEq, Eq)]
pub struct AdoptionLedger {
    /// Durable tools, in the order they were bound.
    pub durable_ids: Vec<Uuid>,
    /// Provider call identities, in the order they were bound.
    pub provider_call_ids: Vec<String>,
    /// Budget reservation of each historical turn.
    pub turn_budgets: Vec<(i64, Uuid)>,
}

/// Whether the text occurs in the list.
pub open spec fn has_text(list: Seq<String>, text: Seq<char>) -> bool {
    exists|k: int| 0 <= k < list.len() && (#[trigger] list[k])@ == text
}

/// Whether the identifier occurs in the list.
pub open spec fn has_id(list: Seq<Uuid>, id: Uuid) -> bool {
    exists|k: int| 0 <= k < list.len() && #[trigger] list[k] == id
}

fn contains_id(list: &Vec<Uuid>, id: Uuid) -> (result: bool)
    ensures
        result == has_id(list@, id),
{
    let mut i: usize = 0;
    while i < list.len()
        invariant
            i <= list@.len(),
            forall|k: int| 0 <= k < i ==> #[trigger] list@[k] != id,
        decreases list@.len() - i,
    {
        if list[i] == id {
            return true;
        }
        i += 1;
    }
    false
}

fn contains_text(list: &Vec<String>, text: &str) -> (result: bool)
    ensures
        result == has_text(list@, text@),
{
    let mut i: usize = 0;
    while i < list.len()
        invariant
            i <= list@.len(),
            forall|k: int| 0 <= k < i ==> (#[trigger] list@[k])@ != text@,
        decreases list@.len() - i,
    {
        if same_text(list[i].as_str(), text) {
            return true;
        }
        i += 1;
    }
    false
}

/// Whether the tool at `index` agrees with its call, its model input, and its
/// transfer.
pub open spec fn tool_consistent(
    payload: CoordinatorCheckpointPayload,
    continuation: AiAgentContinuation,
    index: int,
) -> bool {
    let tool = payload.completed_tools@[index];
    let input = continuation.input@[index];
    &&& tool.provider_call_id@ == payload.provider_result.tool_calls@[index].call_id@
    &&& blocks_equal(tool.model_input, input)
    &&& tool.egress_manifest@ == continuation.transfers@[index].manifest@
    &&& input is ToolResult
}

/// Whether the stateless history, if any, records the tool at `index` of the
/// current batch with the same call and output.
pub open spec fn evidence_agrees(
    payload: CoordinatorCheckpointPayload,
    continuation: AiAgentContinuation,
    index: int,
) -> bool {
    continuation.stateless_evidence matches Some(evidence) ==> {
        let item = evidence.tools@[evidence.tools@.len() - evidence.current_tool_count + index];
        let call = payload.provider_result.tool_calls@[index];
        &&& item.call_id@ == call.call_id@
        &&& item.tool_id@ == call.tool_id@
        &&& text_option(call.provider_name) == Some(item.provider_name@)
        &&& item.tool_fingerprint@ == call.tool_fingerprint@
        &&& json_equal(item.arguments@, call.arguments@)
        &&& json_equal(item.output@, continuation.input@[index]->output@)
    }
}

/// Whether the tool at `index` may be continued: the history agrees, the input
/// answers the call, and the transfer is exactly this tool's result.
pub open spec fn tool_continuable(
    payload: CoordinatorCheckpointPayload,
    continuation: AiAgentContinuation,
    index: int,
) -> bool {
    let call = payload.provider_result.tool_calls@[index];
    let input = continuation.input@[index];
    let transfer = continuation.transfers@[index];
    &&& evidence_agrees(payload, continuation, index)
    &&& input->call_id@ == call.call_id@
    &&& input->tool_id@ == call.tool_id@
    &&& transfer.route_matches
    &&& transfers_tool(transfer.manifest, uuid_text(payload.completed_tools@[index].id))
}

fn is_evidence_agreeing(
    payload: &CoordinatorCheckpointPayload,
    continuation: &AiAgentContinuation,
    index: usize,
    output: &Vec<u8>,
) -> (result: bool)
    requires
        index < payload.provider_result.tool_calls@.len(),
        index < continuation.input@.len(),
        continuation.input@[index as int] is ToolResult,
        continuation.input@[index as int]->output == *output,
        continuation.stateless_evidence matches Some(evidence) ==> index
            < evidence.current_tool_count <= evidence.tools@.len(),
    ensures
        result == evidence_agrees(*payload, *continuation, index as int),
{
    match &continuation.stateless_evidence {
        Some(evidence) => {
            let position: usize = evidence.tools.len() - evidence.current_tool_count + index;
            let item = &evidence.tools[position];
            let call = &payload.provider_result.tool_calls[index];
            same_text(item.call_id.as_str(), call.call_id.as_str()) && same_text(
                item.tool_id.as_str(),
                call.tool_id.as_str(),
            ) && option_is_text(&call.provider_name, item.provider_name.as_str()) && same_text(
                item.tool_fingerprint.as_str(),
                call.tool_fingerprint.as_str(),
            ) && same_json(item.arguments.as_slice(), call.arguments.as_slice()) && same_json(
                item.output.as_slice(),
                output.as_slice(),
            )
        },
        None => true,
    }
}

/// Whether the call and its step are the finished, authorized, and disclosed
/// execution that the checkpoint recorded.
pub open spec fn call_bound(
    call: AiToolCallRecord,
    step: AiRunStepRecord,
    fence: AdoptionFence,
    call_id: Seq<char>,
    tool_id: Seq<char>,
    tool_fingerprint: Seq<char>,
    arguments: Seq<u8>,
    provider_turn_index: i64,
    tool_call_index: int,
    manifest: AiEgressManifest,
) -> bool {
    &&& call.run_id == fence.run_id
    &&& call.lease_generation == fence.lease_generation
    &&& call.provider_call_id@ == call_id
    &&& text_option(call.provider_kind) == Some(fence.provider_kind@)
    &&& text_option(call.provider_model) == Some(fence.provider_model@)
    &&& call.provider_turn_index == provider_turn_index
    &&& call.tool_call_index == tool_call_index
    &&& call.tool_id@ == tool_id
    &&& call.tool_fingerprint@ == tool_fingerprint
    &&& call.argument_hash@ == hex_text(sha256_digest(canonical_json_bytes(arguments)->0))
    &&& call.state@ == "completed"@ || call.state@ == "execution_failed"@
    &&& text_option(call.result_egress_manifest_hash) == Some(manifest.stable_hash@)
    &&& call.result_egress_decision_id is Some
    &&& call.authorization_code is Some
    &&& call.disclosure_schema_fingerprint is Some
    &&& text_option(call.result_classification) == Some(
        classification_text(manifest.maximum_classification),
    )
    &&& call.state@ == "completed"@ ==> call.authorization_policy_version is Some
        && call.authorization_state_digest is Some
    &&& call.completed_at is Some
    &&& step.run_id == fence.run_id
    &&& step.lease_generation == fence.lease_generation
    &&& step.state@ == call.state@
    &&& step.finished_at is Some
}

fn is_call_bound(
    call: &AiToolCallRecord,
    step: &AiRunStepRecord,
    fence: &AdoptionFence,
    call_id: &str,
    tool_id: &str,
    tool_fingerprint: &str,
    argument_hash: &str,
    Ghost(arguments): Ghost<Seq<u8>>,
    provider_turn_index: i64,
    tool_call_index: usize,
    manifest: &AiEgressManifest,
) -> (result: bool)
    requires
        argument_hash@ == hex_text(sha256_digest(canonical_json_bytes(arguments)->0)),
    ensures
        result == call_bound(
            *call,
            *step,
            *fence,
            call_id@,
            tool_id@,
            tool_fingerprint@,
            arguments,
            provider_turn_index,
            tool_call_index as int,
            *manifest,
        ),
{
    let completed: bool = same_text(call.state.as_str(), "completed");
    let settled: bool = completed || same_text(call.state.as_str(), "execution_failed");
    let authorized: bool = !completed || (call.authorization_policy_version.is_some()
        && call.authorization_state_digest.is_some());
    call.run_id == fence.run_id && call.lease_generation == fence.lease_generation && same_text(
        call.provider_call_id.as_str(),
        call_id,
    ) && option_is_text(&call.provider_kind, fence.provider_kind.as_str()) && option_is_text(
        &call.provider_model,
        fence.provider_model.as_str(),
    ) && call.provider_turn_index == provider_turn_index && call.tool_call_index as i128
        == tool_call_index as i128 && same_text(call.tool_id.as_str(), tool_id) && same_text(
        call.tool_fingerprint.as_str(),
        tool_fingerprint,
    ) && same_text(call.argument_hash.as_str(), argument_hash) && settled && option_is_text(
        &call.result_egress_manifest_hash,
        manifest.stable_hash.as_str(),
    ) && call.result_egress_decision_id.is_some() && call.authorization_code.is_some()
        && call.disclosure_schema_fingerprint.is_some() && option_is_text(
        &call.result_classification,
        classification_value(manifest.maximum_classification),
    ) && authorized && call.completed_at.is_some() && step.run_id == fence.run_id
        && step.lease_generation == fence.lease_generation && same_text(
        step.state.as_str(),
        call.state.as_str(),
    ) && step.finished_at.is_some()
}

/// Whether the rows of the current tool at `index` are exactly what the
/// checkpoint recorded.
pub open spec fn current_call_bound(
    call: AiToolCallRecord,
    step: AiRunStepRecord,
    fence: AdoptionFence,
    payload: CoordinatorCheckpointPayload,
    manifest: AiEgressManifest,
    index: int,
) -> bool {
    let provider_tool = payload.provider_result.tool_calls@[index];
    &&& call_bound(
        call,
        step,
        fence,
        provider_tool.call_id@,
        provider_tool.tool_id@,
        provider_tool.tool_fingerprint@,
        provider_tool.arguments@,
        fence.provider_turn_index,
        index,
        manifest,
    )
    &&& text_option(call.provider_response_id) == text_option(fence.provider_response_id)
    &&& call.budget_reservation_id == Some(fence.budget_reservation_id)
    &&& call.state@ == payload.completed_tools@[index].state@
    &&& text_option(call.correlation_id) == Some(fence.correlation_id@)
}

/// Accepts the rows of the current tool at `index` and returns its egress
/// decision.
pub fn check_current_call(
    call: &Option<AiToolCallRecord>,
    step: &Option<AiRunStepRecord>,
    fence: &AdoptionFence,
    payload: &CoordinatorCheckpointPayload,
    manifest: &AiEgressManifest,
    index: usize,
) -> (result: Result<Uuid, AiError>)
    requires
        index < payload.completed_tools@.len(),
        index < payload.provider_result.tool_calls@.len(),
    ensures
        refusal(result) == if call is None || step is None {
            Some(ErrorModel::NotFound)
        } else if canonical_json_bytes(
            payload.provider_result.tool_calls@[index as int].arguments@,
        ) is None {
            Some(ErrorModel::PersistenceFailed)
        } else if current_call_bound(
            call->0,
            step->0,
            *fence,
            *payload,
            *manifest,
            index as int,
        ) {
            None
        } else {
            Some(ErrorModel::Conflict)
        },
        result matches Ok(decision) ==> call->0.result_egress_decision_id == Some(decision),
{
    let call: &AiToolCallRecord = match call {
        Some(call) => call,
        None => return Err(AiError::NotFound),
    };
    let step: &AiRunStepRecord = match step {
        Some(step) => step,
        None => return Err(AiError::NotFound),
    };
    let provider_tool = &payload.provider_result.tool_calls[index];
    let hash: String = match canonical_json_hash(provider_tool.arguments.as_slice()) {
        Ok(hash) => hash,
        Err(error) => return Err(error),
    };
    if !is_call_bound(
        call,
        step,
        fence,
        provider_tool.call_id.as_str(),
        provider_tool.tool_id.as_str(),
        provider_tool.tool_fingerprint.as_str(),
        hash.as_str(),
        Ghost(provider_tool.arguments@),
        fence.provider_turn_index,
        index,
        manifest,
    ) || !same_text_option(&call.provider_response_id, &fence.provider_response_id)
        || !same_id_option(call.budget_reservation_id, Some(fence.budget_reservation_id))
        || !same_text(call.state.as_str(), payload.completed_tools[index].state.as_str())
        || !option_is_text(&call.correlation_id, fence.correlation_id.as_str()) {
        return Err(AiError::Conflict);
    }
    match call.result_egress_decision_id {
        Some(decision) => Ok(decision),
        None => Err(AiError::Conflict),
    }
}

/// Accepts opened arguments and result that are the recorded ones.
pub fn check_opened_tool(
    arguments: &Vec<u8>,
    result: &Vec<u8>,
    expected_arguments: &Vec<u8>,
    expected_output: &Vec<u8>,
) -> (verdict: Result<(), AiError>)
    ensures
        outcome(verdict) == accepted_or(
            json_equal(arguments@, expected_arguments@) && json_equal(result@, expected_output@),
            ErrorModel::Conflict,
        ),
{
    if same_json(arguments.as_slice(), expected_arguments.as_slice()) && same_json(
        result.as_slice(),
        expected_output.as_slice(),
    ) {
        Ok(())
    } else {
        Err(AiError::Conflict)
    }
}

/// Whether the egress decision allowed exactly this transfer for this run.
pub open spec fn transfer_allowed(
    event: AiEgressEventRecord,
    fence: AdoptionFence,
    manifest: AiEgressManifest,
) -> bool {
    &&& event.run_id == Some(fence.run_id)
    &&& event.principal_subject@ == fence.principal_subject@
    &&& event.scope_kind@ == fence.scope.kind@
    &&& event.scope_id@ == fence.scope.id@
    &&& event.manifest_hash@ == manifest.stable_hash@
    &&& event.destination@ == manifest.destination@
    &&& event.capability@ == "tool_result"@
    &&& event.classification@ == classification_text(manifest.maximum_classification)
    &&& event.outcome@ == "allow"@
    &&& event.estimated_bytes == manifest.estimated_bytes
    &&& event.estimated_tokens == manifest.estimated_tokens
}

/// Accepts the egress decision that allowed the transfer.
pub fn check_transfer(
    event: &Option<AiEgressEventRecord>,
    fence: &AdoptionFence,
    manifest: &AiEgressManifest,
) -> (result: Result<(), AiError>)
    ensures
        refusal(result) == match event {
            None => Some(ErrorModel::NotFound),
            Some(event) => if transfer_allowed(*event, *fence, *manifest) {
                None
            } else {
                Some(ErrorModel::EgressDenied)
            },
        },
{
    let event: &AiEgressEventRecord = match event {
        Some(event) => event,
        None => return Err(AiError::NotFound),
    };
    if same_id_option(event.run_id, Some(fence.run_id)) && same_text(
        event.principal_subject.as_str(),
        fence.principal_subject.as_str(),
    ) && same_text(event.scope_kind.as_str(), fence.scope.kind.as_str()) && same_text(
        event.scope_id.as_str(),
        fence.scope.id.as_str(),
    ) && same_text(event.manifest_hash.as_str(), manifest.stable_hash.as_str()) && same_text(
        event.destination.as_str(),
        manifest.destination.as_str(),
    ) && same_text(event.capability.as_str(), "tool_result") && same_text(
        event.classification.as_str(),
        classification_value(manifest.maximum_classification),
    ) && same_text(event.outcome.as_str(), "allow") && column_holds(
        event.estimated_bytes,
        manifest.estimated_bytes,
    ) && column_holds(event.estimated_tokens, manifest.estimated_tokens) {
        Ok(())
    } else {
        Err(AiError::EgressDenied)
    }
}

/// Whether the rows of a historical tool are exactly what the stateless
/// history recorded. Historical calls of a stateless chain retained no
/// provider response.
pub open spec fn historical_call_bound(
    call: AiToolCallRecord,
    step: AiRunStepRecord,
    fence: AdoptionFence,
    item: StatelessTool,
    manifest: AiEgressManifest,
) -> bool {
    &&& call_bound(
        call,
        step,
        fence,
        item.call_id@,
        item.tool_id@,
        item.tool_fingerprint@,
        item.arguments@,
        item.provider_turn_index,
        item.tool_call_index as int,
        manifest,
    )
    &&& call.provider_response_id is None
    &&& call.correlation_id matches Some(correlation) && reference_text(correlation@)
}

/// The budget recorded for a historical turn, if any.
pub open spec fn turn_budget(budgets: Seq<(i64, Uuid)>, turn: i64) -> Option<Uuid> {
    if exists|k: int| 0 <= k < budgets.len() && (#[trigger] budgets[k]).0 == turn {
        let k = choose|k: int| 0 <= k < budgets.len() && (#[trigger] budgets[k]).0 == turn;
        Some(budgets[k].1)
    } else {
        None
    }
}

/// Whether the budget may belong to the turn: it is the one recorded for the
/// turn, or it is neither the current budget nor recorded for another turn.
pub open spec fn turn_budget_fits(
    budgets: Seq<(i64, Uuid)>,
    turn: i64,
    budget: Uuid,
    current: Uuid,
) -> bool {
    match turn_budget(budgets, turn) {
        Some(recorded) => recorded == budget,
        None => budget != current && forall|k: int|
            0 <= k < budgets.len() ==> (#[trigger] budgets[k]).1 != budget,
    }
}

impl AdoptionLedger {
    /// No durable tool, provider call, historical turn, or historical budget
    /// occurs twice.
    pub open spec fn wf(self) -> bool {
        &&& self.durable_ids@.len() == self.provider_call_ids@.len()
        &&& forall|j: int, k: int|
            0 <= j < k < self.durable_ids@.len() ==> #[trigger] self.durable_ids@[j]
                != #[trigger] self.durable_ids@[k]
        &&& forall|j: int, k: int|
            0 <= j < k < self.provider_call_ids@.len() ==> (#[trigger] self.provider_call_ids@[j])@
                != (#[trigger] self.provider_call_ids@[k])@
        &&& forall|j: int, k: int|
            0 <= j < k < self.turn_budgets@.len() ==> (#[trigger] self.turn_budgets@[j]).0 != (
            #[trigger] self.turn_budgets@[k]).0 && self.turn_budgets@[j].1
                != self.turn_budgets@[k].1
    }

    /// An empty ledger.
    pub fn new() -> (ledger: AdoptionLedger)
        ensures
            ledger.wf(),
            ledger.durable_ids@.len() == 0,
            ledger.provider_call_ids@.len() == 0,
            ledger.turn_budgets@.len() == 0,
    {
        AdoptionLedger {
            durable_ids: Vec::new(),
            provider_call_ids: Vec::new(),
            turn_budgets: Vec::new(),
        }
    }

    /// Binds the tool at `index` of the current batch.
    pub fn bind_current_tool(
        &mut self,
        payload: &CoordinatorCheckpointPayload,
        continuation: &AiAgentContinuation,
        index: usize,
    ) -> (result: Result<(), AiError>)
        requires
            old(self).wf(),
            index < payload.completed_tools@.len(),
            payload.completed_tools@.len() == payload.provider_result.tool_calls@.len(),
            payload.completed_tools@.len() == continuation.input@.len(),
            payload.completed_tools@.len() == continuation.transfers@.len(),
            continuation.stateless_evidence matches Some(evidence) ==> evidence.current_tool_count
                == payload.completed_tools@.len() && evidence.current_tool_count
                <= evidence.tools@.len(),
        ensures
            final(self).wf(),
            final(self).turn_budgets == old(self).turn_budgets,
            refusal(result) == if has_id(
                old(self).durable_ids@,
                payload.completed_tools@[index as int].id,
            ) || has_text(
                old(self).provider_call_ids@,
                payload.completed_tools@[index as int].provider_call_id@,
            ) || !tool_consistent(*payload, *continuation, index as int) {
                Some(ErrorModel::Conflict)
            } else if !tool_continuable(*payload, *continuation, index as int) {
                Some(ErrorModel::EgressDenied)
            } else {
                None
            },
            result is Ok ==> final(self).durable_ids@ == old(self).durable_ids@.push(
                payload.completed_tools@[index as int].id,
            ) && final(self).provider_call_ids@ == old(self).provider_call_ids@.push(
                payload.completed_tools@[index as int].provider_call_id,
            ),
            result is Err ==> final(self).durable_ids@ == old(self).durable_ids@ && final(
                self
            ).provider_call_ids@ == old(self).provider_call_ids@,
    {
        let tool = &payload.completed_tools[index];
        let call = &payload.provider_result.tool_calls[index];
        let input = &continuation.input[index];
        let transfer = &continuation.transfers[index];
        if contains_id(&self.durable_ids, tool.id) || contains_text(
            &self.provider_call_ids,
            tool.provider_call_id.as_str(),
        ) || !same_text(tool.provider_call_id.as_str(), call.call_id.as_str()) || !same_block(
            &tool.model_input,
            input,
        ) || !same_manifest(&tool.egress_manifest, &transfer.manifest) {
            return Err(AiError::Conflict);
        }
        match input {
            ModelInputBlock::ToolResult { call_id, tool_id, output } => {
                let reference = uuid_to_string(tool.id);
                if !is_evidence_agreeing(payload, continuation, index, output) || !same_text(
                    call_id.as_str(),
                    call.call_id.as_str(),
                ) || !same_text(tool_id.as_str(), call.tool_id.as_str()) || !transfer.route_matches
                    || !is_tool_transfer(&transfer.manifest, reference.as_str()) {
                    return Err(AiError::EgressDenied);
                }
            },
            _ => return Err(AiError::Conflict),
        }
        self.durable_ids.push(tool.id);
        self.provider_call_ids.push(tool.provider_call_id.clone());
        Ok(())
    }

    /// Binds one historical tool through its replayed transfer and returns the
    /// durable tool.
    pub fn bind_historical_tool(&mut self, item: &StatelessTool, transfer: &RoutedTransfer) -> (result:
        Result<Uuid, AiError>)
        requires
            old(self).wf(),
        ensures
            final(self).wf(),
            final(self).turn_budgets == old(self).turn_budgets,
            refusal(result) == if !transfer.route_matches || !transfers_some_tool(
                transfer.manifest,
            ) {
                Some(ErrorModel::EgressDenied)
            } else {
                match parsed_uuid(transfer.manifest.sources@[0].reference@) {
                    None => Some(ErrorModel::Conflict),
                    Some(id) => if has_id(old(self).durable_ids@, id) || has_text(
                        old(self).provider_call_ids@,
                        item.call_id@,
                    ) {
                        Some(ErrorModel::Conflict)
                    } else {
                        None
                    },
                }
            },
            result matches Ok(id) ==> parsed_uuid(transfer.manifest.sources@[0].reference@)
                == Some(id) && final(self).durable_ids@ == old(self).durable_ids@.push(id)
                && final(self).provider_call_ids@ == old(self).provider_call_ids@.push(
                item.call_id,
            ),
            result is Err ==> final(self).durable_ids@ == old(self).durable_ids@ && final(
                self
            ).provider_call_ids@ == old(self).provider_call_ids@,
    {
        if !transfer.route_matches || !is_some_tool_transfer(&transfer.manifest) {
            return Err(AiError::EgressDenied);
        }
        let id: Uuid = match uuid_parse(transfer.manifest.sources[0].reference.as_str()) {
            Some(id) => id,
            None => return Err(AiError::Conflict),
        };
        if contains_id(&self.durable_ids, id) || contains_text(
            &self.provider_call_ids,
            item.call_id.as_str(),
        ) {
            return Err(AiError::Conflict);
        }
        self.durable_ids.push(id);
        self.provider_call_ids.push(item.call_id.clone());
        Ok(id)
    }

    fn find_turn(&self, turn: i64) -> (result: Option<Uuid>)
        requires
            self.wf(),
        ensures
            result == turn_budget(self.turn_budgets@, turn),
    {
        let mut i: usize = 0;
        while i < self.turn_budgets.len()
            invariant
                self.wf(),
                i <= self.turn_budgets@.len(),
                forall|k: int| 0 <= k < i ==> (#[trigger] self.turn_budgets@[k]).0 != turn,
            decreases self.turn_budgets@.len() - i,
        {
            let entry = self.turn_budgets[i];
            if entry.0 == turn {
                proof {
                    let k = choose|k: int|
                        0 <= k < self.turn_budgets@.len() && (#[trigger] self.turn_budgets@[k]).0
                            == turn;
                    assert(self.turn_budgets@[i as int].0 == turn);
                    assert(k == i);
                }
                return Some(entry.1);
            }
            i += 1;
        }
        None
    }

    fn holds_budget(&self, budget: Uuid) -> (result: bool)
        ensures
            result == exists|k: int|
                0 <= k < self.turn_budgets@.len() && (#[trigger] self.turn_budgets@[k]).1 == budget,
    {
        let mut i: usize = 0;
        while i < self.turn_budgets.len()
            invariant
                i <= self.turn_budgets@.len(),
                forall|k: int| 0 <= k < i ==> (#[trigger] self.turn_budgets@[k]).1 != budget,
            decreases self.turn_budgets@.len() - i,
        {
            if self.turn_budgets[i].1 == budget {
                assert(self.turn_budgets@[i as int].1 == budget);
                return true;
            }
            i += 1;
        }
        false
    }

    /// Accepts the rows of a historical tool and returns its egress decision.
    ///
    /// All tools of one historical turn share one committed budget; different
    /// turns have different budgets, none of them the current one.
    #[verifier::rlimit(40)]
    pub fn check_historical_call(
        &mut self,
        call: &Option<AiToolCallRecord>,
        step: &Option<AiRunStepRecord>,
        budget: &Option<AiBudgetReservationRecord>,
        lease: &AiRunLease,
        attempt_id: Uuid,
        fence: &AdoptionFence,
        item: &StatelessTool,
        manifest: &AiEgressManifest,
    ) -> (result: Result<Uuid, AiError>)
        requires
            old(self).wf(),
        ensures
            final(self).wf(),
            final(self).durable_ids == old(self).durable_ids,
            final(self).provider_call_ids == old(self).provider_call_ids,
            refusal(result) == if call is None || step is None {
                Some(ErrorModel::NotFound)
            } else if call->0.budget_reservation_id is None {
                Some(ErrorModel::Conflict)
            } else if budget is None {
                Some(ErrorModel::NotFound)
            } else if canonical_json_bytes(item.arguments@) is None {
                Some(ErrorModel::PersistenceFailed)
            } else if turn_budget_fits(
                old(self).turn_budgets@,
                item.provider_turn_index,
                call->0.budget_reservation_id->0,
                fence.budget_reservation_id,
            ) && budget_settles(
                budget->0,
                *lease,
                attempt_id,
                fence.lease_generation,
                fence.scope@,
                lease.principal_reference@.kind,
                fence.provider_kind@,
                fence.provider_model@,
            ) && historical_call_bound(call->0, step->0, *fence, *item, *manifest) {
                None
            } else {
                Some(ErrorModel::Conflict)
            },
            result matches Ok(decision) ==> call->0.result_egress_decision_id == Some(decision),
            final(self).turn_budgets@ == if result is Ok && turn_budget(
                old(self).turn_budgets@,
                item.provider_turn_index,
            ) is None {
                old(self).turn_budgets@.push(
                    (item.provider_turn_index, call->0.budget_reservation_id->0),
                )
            } else {
                old(self).turn_budgets@
            },
    {
        let call: &AiToolCallRecord = match call {
            Some(call) => call,
            None => return Err(AiError::NotFound),
        };
        let step: &AiRunStepRecord = match step {
            Some(step) => step,
            None => return Err(AiError::NotFound),
        };
        let budget_id: Uuid = match call.budget_reservation_id {
            Some(id) => id,
            None => return Err(AiError::Conflict),
        };
        let budget: &AiBudgetReservationRecord = match budget {
            Some(budget) => budget,
            None => return Err(AiError::NotFound),
        };
        let hash: String = match canonical_json_hash(item.arguments.as_slice()) {
            Ok(hash) => hash,
            Err(error) => return Err(error),
        };
        let recorded: Option<Uuid> = self.find_turn(item.provider_turn_index);
        let turn_fits: bool = match recorded {
            Some(recorded) => recorded == budget_id,
            None => budget_id != fence.budget_reservation_id && !self.holds_budget(budget_id),
        };
        let kind = principal_reference_kind(&lease.principal_reference);
        let correlated: bool = match &call.correlation_id {
            Some(correlation) => valid_reference(correlation.as_str()),
            None => false,
        };
        if !turn_fits || !checkpoint_budget_matches(
            budget,
            lease,
            attempt_id,
            fence.lease_generation,
            &fence.scope,
            kind.as_str(),
            fence.provider_kind.as_str(),
            fence.provider_model.as_str(),
        ) || !is_call_bound(
            call,
            step,
            fence,
            item.call_id.as_str(),
            item.tool_id.as_str(),
            item.tool_fingerprint.as_str(),
            hash.as_str(),
            Ghost(item.arguments@),
            item.provider_turn_index,
            item.tool_call_index,
            manifest,
        ) || call.provider_response_id.is_some() || !correlated {
            return Err(AiError::Conflict);
        }
        let decision: Uuid = match call.result_egress_decision_id {
            Some(decision) => decision,
            None => return Err(AiError::Conflict),
        };
        if recorded.is_none() {
            self.turn_budgets.push((item.provider_turn_index, budget_id));
        }
        Ok(decision)
    }

    /// Accepts a stateless history in which every earlier turn is covered by a
    /// budget of its own.
    pub fn check_history_complete(&self, provider_turns: u32) -> (result: Result<(), AiError>)
        requires
            provider_turns > 0,
        ensures
            outcome(result) == accepted_or(
                self.turn_budgets@.len() == provider_turns - 1,
                ErrorModel::Conflict,
            ),
    {
        if self.turn_budgets.len() as u128 == provider_turns as u128 - 1 {
            Ok(())
        } else {
            Err(AiError::Conflict)
        }
    }
}

/// A checkpoint can be adopted exactly where it is a tool batch of the lease's
/// run, is paid for, holds its state, and no message was written for it.
pub proof fn adoptable_checkpoints_are_unfinished_batches(
    checkpoint: AiRunCheckpointRecord,
    lease: AiRunLease,
)
    ensures
        checkpoint_adoptable(checkpoint, lease) <==> {
            &&& checkpoint.run_id == lease.run_id
            &&& checkpoint.checkpoint_kind@ == "tool_batch_persisted"@
            &&& checkpoint.budget_reservation_id is Some
            &&& checkpoint.protected_state is Some
            &&& checkpoint.assistant_message_id is None
            &&& checkpoint.provider_response_id is Some ==> reference_text(
                checkpoint.provider_response_id->0@,
            )
        },
{
}

/// A budget settles an attempt exactly where it was committed, for one run,
/// with complete usage, to that attempt of the lease's session and run, for
/// its scope, principal, provider, and model.
pub proof fn settling_budgets_are_committed_to_the_attempt(
    budget: AiBudgetReservationRecord,
    lease: AiRunLease,
    attempt_id: Uuid,
    lease_generation: i64,
    scope: AiScope,
    principal_kind: Seq<char>,
    provider_kind: Seq<char>,
    provider_model: Seq<char>,
)
    ensures
        budget_settles(
            budget,
            lease,
            attempt_id,
            lease_generation,
            scope@,
            principal_kind,
            provider_kind,
            provider_model,
        ) <==> {
            &&& budget.state@ == "committed"@ && budget.reconciled_at is Some
            &&& budget.session_id == lease.session_id && budget.run_id == lease.run_id
            &&& budget.attempt_id == attempt_id && budget.lease_generation == lease_generation
            &&& budget.scope_kind@ == scope.kind@ && budget.scope_id@ == scope.id@
            &&& text_option(budget.tenant_id) == text_option(scope.tenant_id)
            &&& budget.principal_kind@ == principal_kind
            &&& budget.principal_subject@ == lease.principal_reference.subject@
            &&& budget.provider_kind@ == provider_kind && budget.provider_model@ == provider_model
            &&& !blank(budget.pricing_policy_version@)
            &&& non_negative(budget.reserved) && budget.reserved.runs == 1
            &&& usage_settled(budget.actual, budget.actual_cached_input_tokens)
        },
        usage_settled(budget.actual, budget.actual_cached_input_tokens) <==> {
            let used = budget.actual;
            &&& used.input_tokens is Some && used.input_tokens->0 >= 0
            &&& used.output_tokens is Some && used.output_tokens->0 >= 0
            &&& used.tool_units is Some && used.tool_units->0 >= 0
            &&& used.image_units is Some && used.image_units->0 >= 0
            &&& used.cost_microunits is Some && used.cost_microunits->0 >= 0
            &&& used.runs is Some && used.runs->0 == 1
            &&& budget.actual_cached_input_tokens is Some && 0
                <= budget.actual_cached_input_tokens->0 <= used.input_tokens->0
        },
{
}

/// An opened state is adopted exactly where it is a batch of the second format
/// for the scope, with one tool for every call, and counters that agree with
/// its rule usage.
pub proof fn adopted_states_count_what_was_done(
    payload: CoordinatorCheckpointPayload,
    scope: ScopeModel,
)
    ensures
        payload_admitted(payload, scope) <==> {
            let tools = payload.completed_tools@.len();
            &&& payload.format_version == 2
            &&& payload.checkpoint_kind@ == "tool_batch_persisted"@
            &&& payload.scope@ == scope
            &&& byte_len(payload.rule_fingerprint@) == 64
            &&& reference_text(payload.correlation_id@)
            &&& payload.provider_turns >= 1 && payload.total_tool_calls >= 1
            &&& payload.rule_usage.provider_calls == payload.provider_turns
            &&& payload.rule_usage.steps - payload.provider_turns == payload.total_tool_calls
            &&& 1 <= tools <= 4_096
            &&& payload.provider_result.tool_calls@.len() == tools
        },
{
}

/// A recorded provider result belongs to a checkpoint exactly where it names
/// the same session, run, attempt, response, and budget, and the provider and
/// model that the budget was for.
pub proof fn recorded_results_belong_to_their_checkpoint(
    provider: ProviderResultSnapshot,
    lease: AiRunLease,
    checkpoint: AiRunCheckpointRecord,
    reservation: AiBudgetReservationRecord,
)
    ensures
        provider_snapshot_bound(provider, lease, checkpoint, reservation) <==> {
            &&& provider.format_version == 1
            &&& provider.session_id == lease.session_id && provider.run_id == lease.run_id
            &&& provider.attempt_id == checkpoint.attempt_id
            &&& provider.lease_generation == checkpoint.lease_generation
            &&& provider_kind_text(provider.provider_kind) == reservation.provider_kind@
            &&& provider.provider_model@ == reservation.provider_model@
            &&& text_option(provider.provider_response_id) == text_option(
                checkpoint.provider_response_id,
            )
            &&& checkpoint.budget_reservation_id is Some
                && checkpoint.budget_reservation_id->0 == provider.budget_reservation_id
            &&& provider.tool_calls@.len() >= 1
            &&& provider.previous_response_id is Some ==> reference_text(
                provider.previous_response_id->0@,
            )
        },
{
}

/// A batch is continued either through a retained response, or through the
/// complete history of a chain that retained none; never through both, and
/// with one input and one transfer for every tool.
pub proof fn batches_continue_one_way(
    continuation: AiAgentContinuation,
    payload: CoordinatorCheckpointPayload,
    response_id: Option<Seq<char>>,
)
    ensures
        continuation_chains(continuation, payload, response_id) <==> {
            let tools = payload.completed_tools@.len();
            &&& text_option(continuation.provider_response_id) == response_id
            &&& continuation.input@.len() == tools && continuation.transfers@.len() == tools
            &&& continuation.stateless_evidence is None <==> response_id is Some
            &&& continuation.stateless_evidence is Some ==> {
                let history = continuation.stateless_evidence->0;
                &&& payload.provider_result.previous_response_id is None
                &&& history.provider_turns == payload.provider_turns
                &&& history.tools@.len() == payload.total_tool_calls
                &&& history.current_tool_count == tools
                &&& continuation.replay_transfers@.len() == history.tools@.len() - tools
            }
        },
{
}

/// A tool of a batch is taken exactly where its call, its input, and its
/// transfer are of one and the same tool; a stateless history repeats it.
pub proof fn tools_agree_with_their_call(
    payload: CoordinatorCheckpointPayload,
    continuation: AiAgentContinuation,
    index: int,
)
    ensures
        tool_consistent(payload, continuation, index) && tool_continuable(
            payload,
            continuation,
            index,
        ) <==> {
            let tool = payload.completed_tools@[index];
            let call = payload.provider_result.tool_calls@[index];
            let input = continuation.input@[index];
            let transfer = continuation.transfers@[index];
            &&& tool.provider_call_id@ == call.call_id@
            &&& input is ToolResult && input->call_id@ == call.call_id@ && input->tool_id@
                == call.tool_id@
            &&& tool.model_input is ToolResult && tool.model_input->call_id@ == call.call_id@
                && tool.model_input->tool_id@ == call.tool_id@
            &&& json_equal(tool.model_input->output@, input->output@)
            &&& tool.egress_manifest@ == transfer.manifest@
            &&& transfer.route_matches
            &&& transfer.manifest.sources@.len() == 1
            &&& transfer.manifest.sources@[0].kind@ == "application_tool_result"@
            &&& transfer.manifest.sources@[0].reference@ == uuid_text(tool.id)
            &&& continuation.stateless_evidence is Some ==> {
                let history = continuation.stateless_evidence->0;
                let item = history.tools@[history.tools@.len() - history.current_tool_count
                    + index];
                &&& item.call_id@ == call.call_id@ && item.tool_id@ == call.tool_id@
                &&& call.provider_name is Some && call.provider_name->0@ == item.provider_name@
                &&& item.tool_fingerprint@ == call.tool_fingerprint@
                &&& json_equal(item.arguments@, call.arguments@)
                &&& json_equal(item.output@, input->output@)
            }
        },
{
}

/// A stored call is the recorded execution exactly where it is of the fenced
/// attempt, names that call of that turn with that tool and those arguments,
/// has ended, was authorized and disclosed, and its step ended the same way.
pub proof fn stored_calls_are_the_recorded_executions(
    call: AiToolCallRecord,
    step: AiRunStepRecord,
    fence: AdoptionFence,
    call_id: Seq<char>,
    tool_id: Seq<char>,
    tool_fingerprint: Seq<char>,
    arguments: Seq<u8>,
    provider_turn_index: i64,
    tool_call_index: int,
    manifest: AiEgressManifest,
)
    ensures
        call_bound(
            call,
            step,
            fence,
            call_id,
            tool_id,
            tool_fingerprint,
            arguments,
            provider_turn_index,
            tool_call_index,
            manifest,
        ) <==> {
            &&& call.run_id == fence.run_id && step.run_id == fence.run_id
            &&& call.lease_generation == fence.lease_generation && step.lease_generation
                == fence.lease_generation
            &&& call.provider_call_id@ == call_id && call.tool_id@ == tool_id
            &&& call.tool_fingerprint@ == tool_fingerprint
            &&& call.argument_hash@ == hex_text(sha256_digest(canonical_json_bytes(arguments)->0))
            &&& call.provider_turn_index == provider_turn_index && call.tool_call_index
                == tool_call_index
            &&& call.provider_kind is Some && call.provider_kind->0@ == fence.provider_kind@
            &&& call.provider_model is Some && call.provider_model->0@ == fence.provider_model@
            &&& call.completed_at is Some && step.finished_at is Some
            &&& step.state@ == call.state@
            &&& call.state@ == "execution_failed"@ || (call.state@ == "completed"@
                && call.authorization_policy_version is Some && call.authorization_state_digest
                is Some)
            &&& call.authorization_code is Some && call.disclosure_schema_fingerprint is Some
            &&& call.result_egress_decision_id is Some
            &&& call.result_egress_manifest_hash is Some && call.result_egress_manifest_hash->0@
                == manifest.stable_hash@
            &&& call.result_classification is Some && call.result_classification->0@
                == classification_text(manifest.maximum_classification)
        },
{
    reveal_strlit("completed");
    reveal_strlit("execution_failed");
    assert("completed"@.len() == 9 && "execution_failed"@.len() == 16);
}

/// The call of a current tool is of the current turn, paid from its budget,
/// chained to its response, and correlated with it; the call of a historical
/// one is of its own turn, and retained no response.
pub proof fn calls_belong_to_their_turn(
    call: AiToolCallRecord,
    step: AiRunStepRecord,
    fence: AdoptionFence,
    payload: CoordinatorCheckpointPayload,
    item: StatelessTool,
    manifest: AiEgressManifest,
    index: int,
)
    ensures
        current_call_bound(call, step, fence, payload, manifest, index) ==> {
            let recorded = payload.provider_result.tool_calls@[index];
            &&& call.provider_call_id@ == recorded.call_id@
            &&& call.tool_id@ == recorded.tool_id@
            &&& call.tool_fingerprint@ == recorded.tool_fingerprint@
            &&& call.provider_turn_index == fence.provider_turn_index
            &&& call.tool_call_index == index
            &&& call.state@ == payload.completed_tools@[index].state@
            &&& text_option(call.provider_response_id) == text_option(fence.provider_response_id)
            &&& call.budget_reservation_id is Some && call.budget_reservation_id->0
                == fence.budget_reservation_id
            &&& call.correlation_id is Some && call.correlation_id->0@ == fence.correlation_id@
        },
        historical_call_bound(call, step, fence, item, manifest) ==> {
            &&& call.provider_call_id@ == item.call_id@
            &&& call.tool_id@ == item.tool_id@
            &&& call.tool_fingerprint@ == item.tool_fingerprint@
            &&& call.provider_turn_index == item.provider_turn_index
            &&& call.tool_call_index == item.tool_call_index
            &&& call.provider_response_id is None
            &&& call.correlation_id is Some && reference_text(call.correlation_id->0@)
        },
{
}

/// An egress decision allows a tool's transfer exactly where it was an allow
/// for that manifest, of the run and its principal, in its scope, to the same
/// destination, and of the same size.
pub proof fn transfers_were_allowed_as_such(
    event: AiEgressEventRecord,
    fence: AdoptionFence,
    manifest: AiEgressManifest,
)
    ensures
        transfer_allowed(event, fence, manifest) <==> {
            &&& event.outcome@ == "allow"@
            &&& event.capability@ == "tool_result"@
            &&& event.run_id is Some && event.run_id->0 == fence.run_id
            &&& event.principal_subject@ == fence.principal_subject@
            &&& event.scope_kind@ == fence.scope.kind@ && event.scope_id@ == fence.scope.id@
            &&& event.manifest_hash@ == manifest.stable_hash@
            &&& event.destination@ == manifest.destination@
            &&& event.classification@ == classification_text(manifest.maximum_classification)
            &&& event.estimated_bytes == manifest.estimated_bytes
            &&& event.estimated_tokens == manifest.estimated_tokens
        },
{
}

/// A budget fits a turn exactly where it is the turn's own, or it is new: not
/// of another turn, and not the current one.
pub proof fn turns_keep_their_own_budget(
    budgets: Seq<(i64, Uuid)>,
    turn: i64,
    budget: Uuid,
    current: Uuid,
)
    requires
        forall|j: int, k: int|
            0 <= j < k < budgets.len() ==> (#[trigger] budgets[j]).0 != (#[trigger] budgets[k]).0,
    ensures
        turn_budget_fits(budgets, turn, budget, current) <==> {
            ||| exists|k: int|
                0 <= k < budgets.len() && (#[trigger] budgets[k]).0 == turn && budgets[k].1
                    == budget
            ||| budget != current && forall|k: int|
                0 <= k < budgets.len() ==> (#[trigger] budgets[k]).0 != turn && budgets[k].1
                    != budget
        },
{
    if turn_budget(budgets, turn) is Some {
        let k = choose|k: int| 0 <= k < budgets.len() && (#[trigger] budgets[k]).0 == turn;
        assert(budgets[k].0 == turn);
    }
}

/// Blocks of model input are equal exactly where they are of one kind and hold
/// equal values; a tool result is of the same call and tool.
pub proof fn equal_blocks_hold_equal_values(left: ModelInputBlock, right: ModelInputBlock)
    ensures
        blocks_equal(left, right) ==> (left is ToolResult <==> right is ToolResult) && (left is Json
            <==> right is Json) && (left is Attachment <==> right is Attachment),
        left is ToolResult && right is ToolResult ==> (blocks_equal(left, right)
            <==> left->call_id@ == right->call_id@ && left->tool_id@ == right->tool_id@
            && json_equal(left->output@, right->output@)),
        left is Json && right is Json ==> (blocks_equal(left, right) <==> json_equal(
            left->value@,
            right->value@,
        )),
{
}

/// What was bound before is found again, and nothing else is.
pub proof fn bound_texts_are_found(list: Seq<String>, text: Seq<char>, k: int)
    ensures
        0 <= k < list.len() && list[k]@ == text ==> has_text(list, text),
        (forall|i: int| 0 <= i < list.len() ==> (#[trigger] list[i])@ != text) ==> !has_text(
            list,
            text,
        ),
{
}

/// What was bound before is found again, and nothing else is.
pub proof fn bound_identifiers_are_found(list: Seq<Uuid>, id: Uuid, k: int)
    ensures
        0 <= k < list.len() && list[k] == id ==> has_id(list, id),
        (forall|i: int| 0 <= i < list.len() ==> #[trigger] list[i] != id) ==> !has_id(list, id),
{
}

} // verus!
