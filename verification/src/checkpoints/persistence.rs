//! Writing of provider-turn and tool-batch checkpoints.

use crate::access::{AiRunLease, reference_text, valid_reference};
use crate::authority::{ContentAuthority, authority_unchanged, require_unchanged_authority};
use crate::checkpoints::adoption::{CoordinatorCheckpointPayload, payload_admitted};
use crate::checkpoints::continuation::{
    AiAgentContinuation, ModelInputBlock, RoutedTransfer, is_some_tool_transfer, is_tool_transfer,
    transfers_some_tool, transfers_tool,
};
use crate::coordinator::AiRuleRunUsage;
use crate::digest::{Uuid, parsed_uuid, push_bytes, uuid_parse, uuid_text, uuid_to_string};
use crate::error::{AiError, ErrorModel, accepted_or, outcome, refusal};
use crate::json::encoding_option;
use crate::principal::{AiScope, same_scope};
use crate::provider::provider_kind_text;
use crate::provider_result::{
    AiPersistedApplicationToolCall, AiProviderCallResult, ProviderToolCall,
};
use crate::text::{blank, byte_len, clone_text_option, is_blank, same_text};
use vstd::prelude::*;

verus! {

/// What a checkpoint records.
#[derive(Clone, Copy, Debug, PartialEq, Eq, Structural)]
pub enum CheckpointKind {
    ProviderTurnPersisted,
    ToolBatchPersisted,
}

/// Persisted spelling of a checkpoint kind.
pub open spec fn checkpoint_kind_text(kind: CheckpointKind) -> Seq<char> {
    match kind {
        CheckpointKind::ProviderTurnPersisted => "provider_turn_persisted"@,
        CheckpointKind::ToolBatchPersisted => "tool_batch_persisted"@,
    }
}

/// Persisted spelling of a checkpoint kind.
pub fn checkpoint_kind_value(kind: CheckpointKind) -> (text: &'static str)
    ensures
        text@ == checkpoint_kind_text(kind),
{
    match kind {
        CheckpointKind::ProviderTurnPersisted => "provider_turn_persisted",
        CheckpointKind::ToolBatchPersisted => "tool_batch_persisted",
    }
}

/// Rules that were resolved for a scope.
#[derive(Debug, PartialEq, Eq)]
pub struct AiResolvedRuleSet {
    pub target_scope: AiScope,
    pub fingerprint: String,
}

/// Everything that one checkpoint binds together.
#[derive(Debug, PartialEq, Eq)]
pub struct CheckpointRequest<'a> {
    pub kind: CheckpointKind,
    pub scope: AiScope,
    pub correlation_id: String,
    pub rules: &'a AiResolvedRuleSet,
    pub rule_usage: AiRuleRunUsage,
    pub provider_turns: u32,
    pub total_tool_calls: u32,
    pub completed_tools: &'a [AiPersistedApplicationToolCall],
    pub continuation: Option<&'a AiAgentContinuation>,
}

/// Tool calls that were completed when the checkpoint is written.
pub open spec fn completed_tool_count(
    request: CheckpointRequest,
    result: AiProviderCallResult,
) -> int {
    match request.kind {
        CheckpointKind::ProviderTurnPersisted => request.total_tool_calls
            - result.tool_calls@.len(),
        CheckpointKind::ToolBatchPersisted => request.total_tool_calls as int,
    }
}

/// Whether the request belongs to the lease's attempt, counts what the result
/// holds, and matches its kind: a turn checkpoint carries no tools, a batch
/// checkpoint exactly one completed tool for each requested call and the
/// continuation.
pub open spec fn checkpoint_admitted(
    request: CheckpointRequest,
    lease: AiRunLease,
    result: AiProviderCallResult,
) -> bool {
    &&& result.session_id == lease.session_id
    &&& result.run_id == lease.run_id
    &&& result.attempt_id == lease.attempt_id
    &&& result.lease_generation == lease.lease_generation
    &&& request.provider_turns > 0
    &&& request.total_tool_calls >= result.tool_calls@.len()
    &&& reference_text(request.correlation_id@)
    &&& !blank(request.scope.kind@)
    &&& !blank(request.scope.id@)
    &&& request.rules.target_scope@ == request.scope@
    &&& request.rule_usage.provider_calls == request.provider_turns
    &&& match request.kind {
        CheckpointKind::ProviderTurnPersisted => request.completed_tools@.len() == 0
            && request.continuation is None,
        CheckpointKind::ToolBatchPersisted => request.completed_tools@.len() > 0
            && request.continuation is Some && request.completed_tools@.len()
            == result.tool_calls@.len(),
    }
    &&& request.rule_usage.steps == request.provider_turns + completed_tool_count(request, result)
}

/// Accepts exactly the admitted checkpoints.
pub fn admit_checkpoint(
    request: &CheckpointRequest,
    lease: &AiRunLease,
    result: &AiProviderCallResult,
) -> (verdict: Result<(), AiError>)
    ensures
        outcome(verdict) == accepted_or(
            checkpoint_admitted(*request, *lease, *result),
            ErrorModel::Conflict,
        ),
{
    let calls: usize = result.tool_calls.len();
    if result.session_id != lease.session_id || result.run_id != lease.run_id || result.attempt_id
        != lease.attempt_id || result.lease_generation != lease.lease_generation
        || request.provider_turns == 0 || calls > u32::MAX as usize || request.total_tool_calls
        < calls as u32 || !valid_reference(request.correlation_id.as_str()) || is_blank(
        request.scope.kind.as_str(),
    ) || is_blank(request.scope.id.as_str()) || !same_scope(
        &request.rules.target_scope,
        &request.scope,
    ) || request.rule_usage.provider_calls != request.provider_turns as u64 {
        return Err(AiError::Conflict);
    }
    let completed: u32 = match request.kind {
        CheckpointKind::ProviderTurnPersisted => {
            if request.completed_tools.len() != 0 || request.continuation.is_some() {
                return Err(AiError::Conflict);
            }
            request.total_tool_calls - calls as u32
        },
        CheckpointKind::ToolBatchPersisted => {
            if request.completed_tools.len() == 0 || request.continuation.is_none()
                || request.completed_tools.len() != calls {
                return Err(AiError::Conflict);
            }
            request.total_tool_calls
        },
    };
    if request.rule_usage.steps != request.provider_turns as u64 + completed as u64 {
        return Err(AiError::Conflict);
    }
    Ok(())
}

/// Accepts rules that are still the ones the work started under and that the
/// accumulated usage satisfies.
pub fn require_unchanged_rules(
    started_fingerprint: &str,
    current_fingerprint: &str,
    usage_valid: bool,
) -> (result: Result<(), AiError>)
    ensures
        outcome(result) == accepted_or(
            current_fingerprint@ == started_fingerprint@ && usage_valid,
            ErrorModel::ReauthorizationFailed,
        ),
{
    if same_text(current_fingerprint, started_fingerprint) && usage_valid {
        Ok(())
    } else {
        Err(AiError::ReauthorizationFailed)
    }
}

/// The durable tool that a batch checkpoint refers to.
#[derive(Debug, PartialEq, Eq)]
pub struct PreparedCoordinatorCheckpointTool {
    pub id: Uuid,
    pub provider_call_id: String,
    pub tool_id: String,
    pub result_egress_manifest_hash: String,
}

/// Whether the tool's result may leave through the turn's route, as exactly
/// this tool's result.
pub open spec fn tool_transferable(tool: AiPersistedApplicationToolCall) -> bool {
    &&& tool.egress_manifest matches Some(manifest)
    &&& tool.route_matches
    &&& transfers_tool(manifest, uuid_text(tool.id))
}

/// Whether the tool answers exactly the expected call.
pub open spec fn tool_answers(
    tool: AiPersistedApplicationToolCall,
    expected: ProviderToolCall,
) -> bool {
    &&& tool.provider_call_id@ == expected.call_id@
    &&& tool.model_input matches Some(ModelInputBlock::ToolResult { call_id, tool_id, .. })
        && call_id@ == expected.call_id@ && tool_id@ == expected.tool_id@
}

/// Whether an earlier tool of the batch has the same identity, call, or
/// manifest.
pub open spec fn tool_repeats(tools: Seq<AiPersistedApplicationToolCall>, index: int) -> bool {
    exists|k: int| 0 <= k < index && tools_clash(#[trigger] tools[k], tools[index])
}

/// Whether two tools have the same identity, call, or manifest.
pub open spec fn tools_clash(
    left: AiPersistedApplicationToolCall,
    right: AiPersistedApplicationToolCall,
) -> bool {
    ||| left.id == right.id
    ||| left.provider_call_id@ == right.provider_call_id@
    ||| left.egress_manifest->0.stable_hash@ == right.egress_manifest->0.stable_hash@
}

/// Why the tool at `index` cannot be checkpointed, given that all earlier ones
/// can.
pub open spec fn tool_refusal(
    tools: Seq<AiPersistedApplicationToolCall>,
    expected: Seq<ProviderToolCall>,
    index: int,
) -> Option<ErrorModel> {
    let tool = tools[index];
    if !tool_transferable(tool) {
        Some(ErrorModel::EgressDenied)
    } else if !tool_answers(tool, expected[index]) || tool_repeats(tools, index) {
        Some(ErrorModel::Conflict)
    } else if tool.checkpoint_value is None {
        Some(ErrorModel::EgressDenied)
    } else {
        None
    }
}

/// Whether the hash is that of a tool's manifest.
pub open spec fn hash_among_tools(
    tools: Seq<AiPersistedApplicationToolCall>,
    hash: Seq<char>,
) -> bool {
    exists|k: int|
        0 <= k < tools.len() && (#[trigger] tools[k]).egress_manifest->0.stable_hash@ == hash
}

/// Whether the replayed transfer at `index` may leave through the turn's
/// route, is of a known tool, and repeats no manifest.
pub open spec fn replay_transferable(
    tools: Seq<AiPersistedApplicationToolCall>,
    replays: Seq<RoutedTransfer>,
    index: int,
) -> bool {
    let transfer = replays[index];
    &&& transfer.route_matches
    &&& transfers_some_tool(transfer.manifest)
    &&& parsed_uuid(transfer.manifest.sources@[0].reference@) is Some
    &&& !hash_among_tools(tools, transfer.manifest.stable_hash@)
    &&& forall|k: int|
        0 <= k < index ==> (#[trigger] replays[k]).manifest.stable_hash@
            != transfer.manifest.stable_hash@
}

/// The refusal of the first of the first `count` tools that is refused.
pub open spec fn first_tool_refusal(
    tools: Seq<AiPersistedApplicationToolCall>,
    expected: Seq<ProviderToolCall>,
    count: nat,
) -> Option<ErrorModel>
    decreases count,
{
    if count == 0 {
        None
    } else {
        let earlier = first_tool_refusal(tools, expected, (count - 1) as nat);
        if earlier is Some {
            earlier
        } else {
            tool_refusal(tools, expected, count - 1)
        }
    }
}

/// Replayed transfers of an optional continuation.
pub open spec fn replayed(continuation: Option<&AiAgentContinuation>) -> Seq<RoutedTransfer> {
    match continuation {
        Some(continuation) => continuation.replay_transfers@,
        None => Seq::empty(),
    }
}

/// Why the batch cannot be checkpointed.
pub open spec fn batch_refusal(
    tools: Seq<AiPersistedApplicationToolCall>,
    expected: Seq<ProviderToolCall>,
    continuation: Option<&AiAgentContinuation>,
) -> Option<ErrorModel> {
    let refused = first_tool_refusal(tools, expected, tools.len());
    if refused is Some {
        refused
    } else if exists|k: int|
        0 <= k < replayed(continuation).len() && !replay_transferable(
            tools,
            replayed(continuation),
            k,
        ) {
        Some(ErrorModel::EgressDenied)
    } else {
        None
    }
}

/// Whether the prepared tool refers to exactly this completed tool.
pub open spec fn tool_prepared(
    prepared: PreparedCoordinatorCheckpointTool,
    tool: AiPersistedApplicationToolCall,
    expected: ProviderToolCall,
) -> bool {
    &&& prepared.id == tool.id
    &&& prepared.provider_call_id == expected.call_id
    &&& prepared.tool_id == expected.tool_id
    &&& prepared.result_egress_manifest_hash == tool.egress_manifest->0.stable_hash
}

fn is_transferable(tool: &AiPersistedApplicationToolCall) -> (result: bool)
    ensures
        result == tool_transferable(*tool),
{
    match &tool.egress_manifest {
        Some(manifest) => {
            let reference = uuid_to_string(tool.id);
            tool.route_matches && is_tool_transfer(manifest, reference.as_str())
        },
        None => false,
    }
}

fn is_answer(tool: &AiPersistedApplicationToolCall, expected: &ProviderToolCall) -> (result: bool)
    ensures
        result == tool_answers(*tool, *expected),
{
    let input_answers: bool = match &tool.model_input {
        Some(ModelInputBlock::ToolResult { call_id, tool_id, .. }) => same_text(
            call_id.as_str(),
            expected.call_id.as_str(),
        ) && same_text(tool_id.as_str(), expected.tool_id.as_str()),
        _ => false,
    };
    same_text(tool.provider_call_id.as_str(), expected.call_id.as_str()) && input_answers
}

fn is_repeat(tools: &[AiPersistedApplicationToolCall], index: usize) -> (result: bool)
    requires
        index < tools@.len(),
        forall|k: int| 0 <= k <= index ==> (#[trigger] tools@[k]).egress_manifest is Some,
    ensures
        result == tool_repeats(tools@, index as int),
{
    let mut i: usize = 0;
    while i < index
        invariant
            i <= index < tools@.len(),
            forall|k: int| 0 <= k <= index ==> (#[trigger] tools@[k]).egress_manifest is Some,
            forall|k: int| 0 <= k < i ==> !tools_clash(#[trigger] tools@[k], tools@[index as int]),
        decreases index - i,
    {
        let earlier = &tools[i];
        let current = &tools[index];
        let same_hash: bool = match (&earlier.egress_manifest, &current.egress_manifest) {
            (Some(left), Some(right)) => same_text(
                left.stable_hash.as_str(),
                right.stable_hash.as_str(),
            ),
            _ => false,
        };
        if earlier.id == current.id || same_text(
            earlier.provider_call_id.as_str(),
            current.provider_call_id.as_str(),
        ) || same_hash {
            assert(tools_clash(tools@[i as int], tools@[index as int]));
            return true;
        }
        i += 1;
    }
    false
}

fn is_replay_transferable(
    tools: &[AiPersistedApplicationToolCall],
    replays: &Vec<RoutedTransfer>,
    index: usize,
) -> (result: bool)
    requires
        index < replays@.len(),
        forall|k: int| 0 <= k < tools@.len() ==> (#[trigger] tools@[k]).egress_manifest is Some,
    ensures
        result == replay_transferable(tools@, replays@, index as int),
{
    let transfer = &replays[index];
    if !transfer.route_matches || !is_some_tool_transfer(&transfer.manifest) {
        return false;
    }
    if uuid_parse(transfer.manifest.sources[0].reference.as_str()).is_none() {
        return false;
    }
    let mut i: usize = 0;
    while i < tools.len()
        invariant
            i <= tools@.len(),
            *transfer == replays@[index as int],
            forall|k: int| 0 <= k < tools@.len() ==> (#[trigger] tools@[k]).egress_manifest is Some,
            forall|k: int|
                0 <= k < i ==> (#[trigger] tools@[k]).egress_manifest->0.stable_hash@
                    != transfer.manifest.stable_hash@,
        decreases tools@.len() - i,
    {
        match &tools[i].egress_manifest {
            Some(manifest) => {
                if same_text(
                    manifest.stable_hash.as_str(),
                    transfer.manifest.stable_hash.as_str(),
                ) {
                    assert(tools@[i as int].egress_manifest->0.stable_hash@
                        == transfer.manifest.stable_hash@);
                    return false;
                }
            },
            None => {},
        }
        i += 1;
    }
    let mut j: usize = 0;
    while j < index
        invariant
            j <= index < replays@.len(),
            *transfer == replays@[index as int],
            forall|k: int|
                0 <= k < j ==> (#[trigger] replays@[k]).manifest.stable_hash@
                    != transfer.manifest.stable_hash@,
        decreases index - j,
    {
        if same_text(
            replays[j].manifest.stable_hash.as_str(),
            transfer.manifest.stable_hash.as_str(),
        ) {
            assert(replays@[j as int].manifest.stable_hash@ == transfer.manifest.stable_hash@);
            return false;
        }
        j += 1;
    }
    true
}

proof fn lemma_first_tool_stays(
    tools: Seq<AiPersistedApplicationToolCall>,
    expected: Seq<ProviderToolCall>,
    known: nat,
    count: nat,
)
    requires
        known <= count,
        first_tool_refusal(tools, expected, known) is Some,
    ensures
        first_tool_refusal(tools, expected, count) == first_tool_refusal(tools, expected, known),
    decreases count,
{
    if known < count {
        lemma_first_tool_stays(tools, expected, known, (count - 1) as nat);
    }
}

/// Prepares the tools of a checkpoint, in order, and checks every replayed
/// transfer.
#[verifier::rlimit(40)]
pub fn prepare_checkpoint_tools(
    tools: &[AiPersistedApplicationToolCall],
    expected: &Vec<ProviderToolCall>,
    continuation: Option<&AiAgentContinuation>,
) -> (result: Result<Vec<PreparedCoordinatorCheckpointTool>, AiError>)
    requires
        tools@.len() <= expected@.len(),
    ensures
        refusal(result) == batch_refusal(tools@, expected@, continuation),
        result matches Ok(prepared) ==> prepared@.len() == tools@.len() && forall|k: int|
            0 <= k < tools@.len() ==> tool_prepared(
                #[trigger] prepared@[k],
                tools@[k],
                expected@[k],
            ),
{
    let mut prepared: Vec<PreparedCoordinatorCheckpointTool> = Vec::new();
    let mut i: usize = 0;
    while i < tools.len()
        invariant
            i <= tools@.len() <= expected@.len(),
            prepared@.len() == i,
            first_tool_refusal(tools@, expected@, i as nat) is None,
            forall|k: int| 0 <= k < i ==> (#[trigger] tools@[k]).egress_manifest is Some,
            forall|k: int|
                0 <= k < i ==> tool_prepared(#[trigger] prepared@[k], tools@[k], expected@[k]),
        decreases tools@.len() - i,
    {
        let tool = &tools[i];
        let call = &expected[i];
        let transferable: bool = is_transferable(tool);
        if !transferable {
            proof {
                lemma_first_tool_stays(tools@, expected@, (i + 1) as nat, tools@.len());
            }
            return Err(AiError::EgressDenied);
        }
        if !is_answer(tool, call) || is_repeat(tools, i) {
            proof {
                lemma_first_tool_stays(tools@, expected@, (i + 1) as nat, tools@.len());
            }
            return Err(AiError::Conflict);
        }
        if tool.checkpoint_value.is_none() {
            proof {
                lemma_first_tool_stays(tools@, expected@, (i + 1) as nat, tools@.len());
            }
            return Err(AiError::EgressDenied);
        }
        match &tool.egress_manifest {
            Some(manifest) => {
                prepared.push(
                    PreparedCoordinatorCheckpointTool {
                        id: tool.id,
                        provider_call_id: call.call_id.clone(),
                        tool_id: call.tool_id.clone(),
                        result_egress_manifest_hash: manifest.stable_hash.clone(),
                    },
                );
            },
            None => return Err(AiError::EgressDenied),
        }
        i += 1;
    }
    match continuation {
        Some(chain) => {
            let replays = &chain.replay_transfers;
            let mut j: usize = 0;
            while j < replays.len()
                invariant
                    j <= replays@.len(),
                    replays@ == replayed(continuation),
                    first_tool_refusal(tools@, expected@, tools@.len()) is None,
                    forall|k: int|
                        0 <= k < tools@.len() ==> (#[trigger] tools@[k]).egress_manifest is Some,
                    forall|k: int|
                        0 <= k < j ==> replay_transferable(tools@, replays@, k),
                decreases replays@.len() - j,
            {
                if !is_replay_transferable(tools, replays, j) {
                    assert(!replay_transferable(tools@, replays@, j as int));
                    return Err(AiError::EgressDenied);
                }
                j += 1;
            }
        },
        None => {},
    }
    Ok(prepared)
}

/// The state of a checkpoint, before it is encoded and protected. The values
/// of the provider layer are carried encoded.
#[derive(PartialEq, Eq)]
pub struct CoordinatorCheckpointState {
    pub format_version: u32,
    pub checkpoint_kind: String,
    pub provider_turns: u32,
    pub total_tool_calls: u32,
    pub scope: AiScope,
    pub rule_fingerprint: String,
    pub rule_usage: AiRuleRunUsage,
    pub correlation_id: String,
    pub result_egress_route: Vec<u8>,
    pub provider_result: Vec<u8>,
    pub completed_tools: Vec<Vec<u8>>,
    pub continuation: Option<Vec<u8>>,
}

/// Whether the state records exactly the request, with the encoded forms of
/// its tools in order, and these encoded values.
pub open spec fn state_records(
    state: CoordinatorCheckpointState,
    request: CheckpointRequest,
    route: Seq<u8>,
    provider_result: Seq<u8>,
    continuation: Option<Seq<u8>>,
) -> bool {
    &&& state.format_version == 2
    &&& state.checkpoint_kind@ == checkpoint_kind_text(request.kind)
    &&& state.provider_turns == request.provider_turns
    &&& state.total_tool_calls == request.total_tool_calls
    &&& state.scope == request.scope
    &&& state.rule_fingerprint == request.rules.fingerprint
    &&& state.rule_usage == request.rule_usage
    &&& state.correlation_id == request.correlation_id
    &&& state.result_egress_route@ == route
    &&& state.provider_result@ == provider_result
    &&& state.completed_tools@.len() == request.completed_tools@.len()
    &&& forall|k: int|
        0 <= k < state.completed_tools@.len() ==> encoding_option(
            (#[trigger] request.completed_tools@[k]).checkpoint_value,
        ) == Some(state.completed_tools@[k]@)
    &&& encoding_option(state.continuation) == continuation
}

/// Composes the state of a checkpoint from its request and the encoded route,
/// provider result, and continuation. Every completed tool must have an encoded
/// form.
pub fn checkpoint_payload(
    request: &CheckpointRequest,
    route: Vec<u8>,
    provider_result: Vec<u8>,
    continuation: Option<Vec<u8>>,
) -> (result: Result<CoordinatorCheckpointState, AiError>)
    requires
        continuation is Some <==> request.continuation is Some,
    ensures
        refusal(result) == if forall|k: int|
            0 <= k < request.completed_tools@.len() ==> (
            #[trigger] request.completed_tools@[k]).checkpoint_value is Some {
            None
        } else {
            Some(ErrorModel::EgressDenied)
        },
        result matches Ok(state) ==> state_records(
            state,
            *request,
            route@,
            provider_result@,
            encoding_option(continuation),
        ),
{
    let mut completed_tools: Vec<Vec<u8>> = Vec::new();
    let mut i: usize = 0;
    while i < request.completed_tools.len()
        invariant
            i <= request.completed_tools@.len(),
            completed_tools@.len() == i,
            forall|k: int|
                0 <= k < i ==> encoding_option(
                    (#[trigger] request.completed_tools@[k]).checkpoint_value,
                ) == Some(completed_tools@[k]@),
        decreases request.completed_tools@.len() - i,
    {
        match &request.completed_tools[i].checkpoint_value {
            Some(value) => {
                let mut copy: Vec<u8> = Vec::new();
                push_bytes(&mut copy, value.as_slice());
                assert(copy@ =~= value@);
                completed_tools.push(copy);
            },
            None => {
                assert(request.completed_tools@[i as int].checkpoint_value is None);
                return Err(AiError::EgressDenied);
            },
        }
        i += 1;
    }
    assert forall|k: int| 0 <= k < request.completed_tools@.len() implies (
    #[trigger] request.completed_tools@[k]).checkpoint_value is Some by {
        assert(encoding_option(request.completed_tools@[k].checkpoint_value) is Some);
    }
    Ok(
        CoordinatorCheckpointState {
            format_version: 2,
            checkpoint_kind: checkpoint_kind_value(request.kind).to_owned(),
            provider_turns: request.provider_turns,
            total_tool_calls: request.total_tool_calls,
            scope: request.scope.clone(),
            rule_fingerprint: request.rules.fingerprint.clone(),
            rule_usage: request.rule_usage,
            correlation_id: request.correlation_id.clone(),
            result_egress_route: route,
            provider_result,
            completed_tools,
            continuation,
        },
    )
}

/// Whether an opened state is what this state decodes to: the same header, and
/// as many tools and calls as the state and its provider result hold.
pub open spec fn state_decodes(
    payload: CoordinatorCheckpointPayload,
    state: CoordinatorCheckpointState,
    result: AiProviderCallResult,
) -> bool {
    &&& payload.format_version == state.format_version
    &&& payload.checkpoint_kind@ == state.checkpoint_kind@
    &&& payload.provider_turns == state.provider_turns
    &&& payload.total_tool_calls == state.total_tool_calls
    &&& payload.scope@ == state.scope@
    &&& payload.rule_fingerprint@ == state.rule_fingerprint@
    &&& payload.rule_usage == state.rule_usage
    &&& payload.correlation_id@ == state.correlation_id@
    &&& payload.completed_tools@.len() == state.completed_tools@.len()
    &&& payload.provider_result.tool_calls@.len() == result.tool_calls@.len()
}

/// What is persisted can be adopted: the state of an admitted tool batch passes
/// the payload check of its adoption, once it is opened again.
///
/// This holds of rules with a fingerprint of 64 bytes and of at most 4096
/// tools, which the adoption asks for and the admission does not.
pub proof fn persisted_batch_is_admitted(
    request: CheckpointRequest,
    lease: AiRunLease,
    result: AiProviderCallResult,
    state: CoordinatorCheckpointState,
    route: Seq<u8>,
    provider_result: Seq<u8>,
    continuation: Option<Seq<u8>>,
    payload: CoordinatorCheckpointPayload,
)
    requires
        checkpoint_admitted(request, lease, result),
        request.kind is ToolBatchPersisted,
        byte_len(request.rules.fingerprint@) == 64,
        request.completed_tools@.len() <= 4_096,
        state_records(state, request, route, provider_result, continuation),
        state_decodes(payload, state, result),
    ensures
        payload_admitted(payload, request.scope@),
{
}

/// The checkpoint to append, apart from its protected state.
#[derive(Debug, PartialEq, Eq)]
pub struct PreparedCoordinatorCheckpoint {
    pub id: Uuid,
    pub checkpoint_kind: String,
    pub provider_kind: String,
    pub provider_model: String,
    pub provider_response_id: Option<String>,
    pub budget_reservation_id: Uuid,
    pub checkpoint_hash: String,
    pub completed_tools: Vec<PreparedCoordinatorCheckpointTool>,
}

/// Why a checkpoint cannot be assembled, in the order of checks.
pub open spec fn assembly_refusal(
    request: CheckpointRequest,
    lease: AiRunLease,
    result: AiProviderCallResult,
    started: ContentAuthority,
    current: ContentAuthority,
    current_fingerprint: Seq<char>,
    usage_valid: bool,
) -> Option<ErrorModel> {
    let tools = batch_refusal(
        request.completed_tools@,
        result.tool_calls@,
        request.continuation,
    );
    if !checkpoint_admitted(request, lease, result) {
        Some(ErrorModel::Conflict)
    } else if started@.scope@ != request.scope@ {
        Some(ErrorModel::Forbidden)
    } else if tools is Some {
        tools
    } else if authority_unchanged(started, current, lease) && current_fingerprint
        == request.rules.fingerprint@ && usage_valid {
        None
    } else {
        Some(ErrorModel::ReauthorizationFailed)
    }
}

/// Assembles the checkpoint of an admitted request: exactly its tools, where
/// neither the authority that its state was protected under nor the rules have
/// drifted meanwhile.
pub fn assemble_checkpoint(
    id: Uuid,
    request: &CheckpointRequest,
    lease: &AiRunLease,
    result: &AiProviderCallResult,
    started: &ContentAuthority,
    current: &ContentAuthority,
    current_fingerprint: &str,
    usage_valid: bool,
    checkpoint_hash: String,
) -> (outcome: Result<PreparedCoordinatorCheckpoint, AiError>)
    requires
        started.wf(),
        current.wf(),
    ensures
        refusal(outcome) == assembly_refusal(
            *request,
            *lease,
            *result,
            *started,
            *current,
            current_fingerprint@,
            usage_valid,
        ),
        outcome matches Ok(checkpoint) ==> {
            &&& checkpoint.id == id
            &&& checkpoint.checkpoint_kind@ == checkpoint_kind_text(request.kind)
            &&& checkpoint.provider_kind@ == provider_kind_text(result.provider_kind)
            &&& checkpoint.provider_model == result.provider_model
            &&& checkpoint.provider_response_id == result.provider_response_id
            &&& checkpoint.budget_reservation_id == result.budget_reservation_id
            &&& checkpoint.checkpoint_hash == checkpoint_hash
            &&& checkpoint.completed_tools@.len() == request.completed_tools@.len()
            &&& forall|k: int|
                0 <= k < checkpoint.completed_tools@.len() ==> tool_prepared(
                    #[trigger] checkpoint.completed_tools@[k],
                    request.completed_tools@[k],
                    result.tool_calls@[k],
                )
        },
{
    match admit_checkpoint(request, lease, result) {
        Ok(()) => {},
        Err(error) => return Err(error),
    }
    if !same_scope(started.scope(), &request.scope) {
        return Err(AiError::Forbidden);
    }
    let completed_tools: Vec<PreparedCoordinatorCheckpointTool> = match prepare_checkpoint_tools(
        request.completed_tools,
        &result.tool_calls,
        request.continuation,
    ) {
        Ok(tools) => tools,
        Err(error) => return Err(error),
    };
    match require_unchanged_authority(started, current, lease) {
        Ok(()) => {},
        Err(error) => return Err(error),
    }
    match require_unchanged_rules(
        request.rules.fingerprint.as_str(),
        current_fingerprint,
        usage_valid,
    ) {
        Ok(()) => {},
        Err(error) => return Err(error),
    }
    Ok(
        PreparedCoordinatorCheckpoint {
            id,
            checkpoint_kind: checkpoint_kind_value(request.kind).to_owned(),
            provider_kind: result.provider_kind.as_str().to_owned(),
            provider_model: result.provider_model.clone(),
            provider_response_id: clone_text_option(&result.provider_response_id),
            budget_reservation_id: result.budget_reservation_id,
            checkpoint_hash,
            completed_tools,
        },
    )
}

/// A checkpointed batch holds no tool, provider call, or transfer twice: tools
/// that prepare without refusal are pairwise different in identity, call, and
/// manifest.
pub proof fn prepared_tools_are_distinct(
    tools: Seq<AiPersistedApplicationToolCall>,
    expected: Seq<ProviderToolCall>,
    count: nat,
)
    requires
        count <= tools.len(),
        first_tool_refusal(tools, expected, count) is None,
    ensures
        forall|j: int, k: int|
            0 <= j < k < count ==> !tools_clash(#[trigger] tools[j], #[trigger] tools[k]),
        forall|k: int| 0 <= k < count ==> tool_answers(#[trigger] tools[k], expected[k]),
    decreases count,
{
    if count > 0 {
        prepared_tools_are_distinct(tools, expected, (count - 1) as nat);
        assert(!tool_repeats(tools, count - 1));
    }
}

/// The spellings of checkpoint kinds.
pub proof fn checkpoint_kinds_are_spelled_so()
    ensures
        checkpoint_kind_text(CheckpointKind::ProviderTurnPersisted) == "provider_turn_persisted"@,
        checkpoint_kind_text(CheckpointKind::ToolBatchPersisted) == "tool_batch_persisted"@,
{
}

/// A checkpoint is admitted exactly where its provider result is of the very
/// lease, its counters agree with each other and with the calls of the result,
/// and it carries what its kind has: a turn neither tools nor a continuation,
/// a batch one tool for every call and its continuation.
pub proof fn checkpoints_count_what_was_done(
    request: CheckpointRequest,
    lease: AiRunLease,
    result: AiProviderCallResult,
)
    ensures
        checkpoint_admitted(request, lease, result) <==> {
            let calls = result.tool_calls@.len();
            let usage = request.rule_usage;
            &&& result.session_id == lease.session_id && result.run_id == lease.run_id
            &&& result.attempt_id == lease.attempt_id && result.lease_generation
                == lease.lease_generation
            &&& request.provider_turns >= 1
            &&& usage.provider_calls == request.provider_turns
            &&& calls <= request.total_tool_calls
            &&& reference_text(request.correlation_id@)
            &&& !blank(request.scope.kind@) && !blank(request.scope.id@)
            &&& request.rules.target_scope@ == request.scope@
            &&& request.kind is ProviderTurnPersisted ==> request.completed_tools@.len() == 0
                && request.continuation is None && usage.steps == request.provider_turns
                + request.total_tool_calls - calls
            &&& request.kind is ToolBatchPersisted ==> calls >= 1 && request.completed_tools@.len()
                == calls && request.continuation is Some && usage.steps == request.provider_turns
                + request.total_tool_calls
        },
{
}

/// A tool's result leaves exactly where it has a manifest that the turn's route
/// takes, which discloses this tool's result and nothing else.
pub proof fn tool_results_leave_as_their_own(tool: AiPersistedApplicationToolCall)
    ensures
        tool_transferable(tool) <==> {
            &&& tool.egress_manifest is Some
            &&& tool.route_matches
            &&& tool.egress_manifest->0.sources@.len() == 1
            &&& tool.egress_manifest->0.sources@[0].kind@ == "application_tool_result"@
            &&& tool.egress_manifest->0.sources@[0].reference@ == uuid_text(tool.id)
        },
{
}

/// A tool answers a call exactly where it, and what the model is given, name
/// that call and its tool.
pub proof fn tools_answer_their_call(
    tool: AiPersistedApplicationToolCall,
    expected: ProviderToolCall,
)
    ensures
        tool_answers(tool, expected) <==> {
            &&& tool.provider_call_id@ == expected.call_id@
            &&& tool.model_input is Some
            &&& tool.model_input->0 is ToolResult
            &&& tool.model_input->0->call_id@ == expected.call_id@
            &&& tool.model_input->0->tool_id@ == expected.tool_id@
        },
{
}

proof fn lemma_tools_pass(
    tools: Seq<AiPersistedApplicationToolCall>,
    expected: Seq<ProviderToolCall>,
    count: nat,
)
    ensures
        first_tool_refusal(tools, expected, count) is None <==> forall|i: int|
            0 <= i < count ==> tool_passes(tools, expected, #[trigger] tools[i], i),
    decreases count,
{
    if count > 0 {
        lemma_tools_pass(tools, expected, (count - 1) as nat);
        assert(tool_passes(tools, expected, tools[count - 1], count - 1) <==> tool_refusal(
            tools,
            expected,
            count - 1,
        ) is None);
    }
}

/// Whether the tool leaves as its own result, answers its call, can be kept,
/// and shares neither identity, call, nor manifest with an earlier one.
pub open spec fn tool_passes(
    tools: Seq<AiPersistedApplicationToolCall>,
    expected: Seq<ProviderToolCall>,
    tool: AiPersistedApplicationToolCall,
    index: int,
) -> bool {
    &&& tool_transferable(tool)
    &&& tool_answers(tool, expected[index])
    &&& tool.checkpoint_value is Some
    &&& forall|k: int|
        0 <= k < index ==> {
            &&& (#[trigger] tools[k]).id != tool.id
            &&& tools[k].provider_call_id@ != tool.provider_call_id@
            &&& tools[k].egress_manifest->0.stable_hash@ != tool.egress_manifest->0.stable_hash@
        }
}

/// A batch is checkpointed exactly where every one of its tools passes and
/// every replayed transfer leaves by the turn's route as one tool's result,
/// under a manifest of its own.
pub proof fn batches_hold_passing_tools(
    tools: Seq<AiPersistedApplicationToolCall>,
    expected: Seq<ProviderToolCall>,
    continuation: Option<&AiAgentContinuation>,
)
    ensures
        batch_refusal(tools, expected, continuation) is None <==> {
            &&& forall|i: int|
                0 <= i < tools.len() ==> tool_passes(tools, expected, #[trigger] tools[i], i)
            &&& continuation is Some ==> forall|k: int|
                0 <= k < continuation->0.replay_transfers@.len() ==> replay_passes(
                    tools,
                    continuation->0.replay_transfers@,
                    #[trigger] continuation->0.replay_transfers@[k],
                    k,
                )
        },
{
    lemma_tools_pass(tools, expected, tools.len());
    let replays = replayed(continuation);
    assert forall|k: int| 0 <= k < replays.len() implies replay_transferable(tools, replays, k)
        == replay_passes(tools, replays, #[trigger] replays[k], k) by {
        let hash = replays[k].manifest.stable_hash@;
        assert(hash_among_tools(tools, hash) <==> !(forall|j: int|
            0 <= j < tools.len() ==> (#[trigger] tools[j]).egress_manifest->0.stable_hash@ != hash));
    }
}

/// Whether the replayed transfer leaves by the turn's route as one tool's
/// result, under a manifest that no tool and no earlier replay has.
pub open spec fn replay_passes(
    tools: Seq<AiPersistedApplicationToolCall>,
    replays: Seq<RoutedTransfer>,
    transfer: RoutedTransfer,
    index: int,
) -> bool {
    &&& transfer.route_matches
    &&& transfer.manifest.sources@.len() == 1
    &&& transfer.manifest.sources@[0].kind@ == "application_tool_result"@
    &&& parsed_uuid(transfer.manifest.sources@[0].reference@) is Some
    &&& forall|j: int|
        0 <= j < tools.len() ==> (#[trigger] tools[j]).egress_manifest->0.stable_hash@
            != transfer.manifest.stable_hash@
    &&& forall|j: int|
        0 <= j < index ==> (#[trigger] replays[j]).manifest.stable_hash@
            != transfer.manifest.stable_hash@
}

/// A prepared tool names the durable tool, the call that it answers, and the
/// manifest under which its result left.
pub proof fn prepared_tools_name_what_they_are(
    prepared: PreparedCoordinatorCheckpointTool,
    tool: AiPersistedApplicationToolCall,
    expected: ProviderToolCall,
)
    requires
        tool_prepared(prepared, tool, expected),
    ensures
        prepared.id == tool.id,
        prepared.provider_call_id@ == expected.call_id@,
        prepared.tool_id@ == expected.tool_id@,
        prepared.result_egress_manifest_hash@ == tool.egress_manifest->0.stable_hash@,
{
}

/// A checkpoint's state says what was asked for: its kind, counters, scope,
/// rules, and correlation, the encoded parts, and every tool in order.
pub proof fn states_say_what_was_requested(
    state: CoordinatorCheckpointState,
    request: CheckpointRequest,
    route: Seq<u8>,
    provider_result: Seq<u8>,
    continuation: Option<Seq<u8>>,
    i: int,
)
    requires
        state_records(state, request, route, provider_result, continuation),
    ensures
        state.format_version == 2,
        state.checkpoint_kind@ == if request.kind is ToolBatchPersisted {
            "tool_batch_persisted"@
        } else {
            "provider_turn_persisted"@
        },
        state.provider_turns == request.provider_turns,
        state.total_tool_calls == request.total_tool_calls,
        state.scope@ == request.scope@,
        state.rule_fingerprint@ == request.rules.fingerprint@,
        state.rule_usage == request.rule_usage,
        state.correlation_id@ == request.correlation_id@,
        state.result_egress_route@ == route,
        state.provider_result@ == provider_result,
        state.completed_tools@.len() == request.completed_tools@.len(),
        0 <= i < state.completed_tools@.len() ==> request.completed_tools@[i].checkpoint_value
            is Some && request.completed_tools@[i].checkpoint_value->0@
            == state.completed_tools@[i]@,
        state.continuation is Some <==> continuation is Some,
        continuation is Some ==> state.continuation->0@ == continuation->0,
{
    if 0 <= i < state.completed_tools@.len() {
        assert(encoding_option(request.completed_tools@[i].checkpoint_value) == Some(
            state.completed_tools@[i]@,
        ));
    }
}

/// A checkpoint is assembled exactly where its request is admitted, in the
/// scope that it was begun in, all of its tools pass, and neither authority
/// nor rules have drifted.
pub proof fn checkpoints_are_assembled_under_one_authority(
    request: CheckpointRequest,
    lease: AiRunLease,
    result: AiProviderCallResult,
    started: ContentAuthority,
    current: ContentAuthority,
    current_fingerprint: Seq<char>,
    usage_valid: bool,
)
    ensures
        assembly_refusal(
            request,
            lease,
            result,
            started,
            current,
            current_fingerprint,
            usage_valid,
        ) is None <==> {
            &&& checkpoint_admitted(request, lease, result)
            &&& started@.scope@ == request.scope@
            &&& batch_refusal(
                request.completed_tools@,
                result.tool_calls@,
                request.continuation,
            ) is None
            &&& authority_unchanged(started, current, lease)
            &&& current_fingerprint == request.rules.fingerprint@
            &&& usage_valid
        },
{
}

/// A checkpoint is refused for what is wrong: a request that does not fit is a
/// conflict, another scope is forbidden, a result that may not leave is
/// denied, and a drifted authority must be proved again.
pub proof fn refused_checkpoints_say_why(
    request: CheckpointRequest,
    lease: AiRunLease,
    result: AiProviderCallResult,
    started: ContentAuthority,
    current: ContentAuthority,
    fingerprint: Seq<char>,
    usage_valid: bool,
    tools: Seq<AiPersistedApplicationToolCall>,
    expected: Seq<ProviderToolCall>,
    index: int,
)
    ensures
        ({
            let refusal = assembly_refusal(
                request,
                lease,
                result,
                started,
                current,
                fingerprint,
                usage_valid,
            );
            let batch = batch_refusal(
                request.completed_tools@,
                result.tool_calls@,
                request.continuation,
            );
            let admitted = checkpoint_admitted(request, lease, result);
            let scoped = started@.scope@ == request.scope@;
            &&& !admitted ==> refusal == Some(ErrorModel::Conflict)
            &&& admitted && !scoped ==> refusal == Some(ErrorModel::Forbidden)
            &&& admitted && scoped && batch is Some ==> refusal == batch
            &&& admitted && scoped && batch is None && refusal is Some ==> refusal == Some(
                ErrorModel::ReauthorizationFailed,
            )
        }),
        tool_refusal(tools, expected, index) == Some(ErrorModel::Conflict) <==> tool_transferable(
            tools[index],
        ) && (!tool_answers(tools[index], expected[index]) || tool_repeats(tools, index)),
        tool_refusal(tools, expected, index) is Some && tool_refusal(tools, expected, index) != Some(
            ErrorModel::Conflict,
        ) ==> tool_refusal(tools, expected, index) == Some(ErrorModel::EgressDenied),
{
}

/// A replayed result that may not leave is denied.
pub proof fn replays_that_may_not_leave_are_denied(
    tools: Seq<AiPersistedApplicationToolCall>,
    expected: Seq<ProviderToolCall>,
    continuation: Option<&AiAgentContinuation>,
    k: int,
)
    requires
        first_tool_refusal(tools, expected, tools.len()) is None,
        0 <= k < replayed(continuation).len(),
        !replay_transferable(tools, replayed(continuation), k),
    ensures
        batch_refusal(tools, expected, continuation) == Some(ErrorModel::EgressDenied),
{
}

} // verus!
