//! Completed provider calls and persisted tool calls as the services see them.

use crate::budget::amounts::AiBudgetAmounts;
use crate::checkpoints::adoption::{blocks_equal, same_block};
use crate::checkpoints::continuation::ModelInputBlock;
use crate::digest::Uuid;
use crate::egress::AiEgressManifest;
use crate::json::{json_equal, same_json};
use crate::provider::ProviderKind;
use crate::text::same_text;
use vstd::prelude::*;

verus! {

/// One tool call that a provider requested.
#[derive(Debug, PartialEq, Eq)]
pub struct ProviderToolCall {
    pub call_id: String,
    pub tool_id: String,
}

/// One normalized event of a provider response.
#[derive(Debug, PartialEq, Eq)]
pub enum ProviderEvent {
    TextDelta { text: String },
    ResponseStarted,
    Usage,
    ResponseCompleted,
    ReasoningSummaryDelta,
    ToolCallStarted,
    ToolArgumentsDelta,
    ToolCallCompleted,
    BuiltinToolStarted,
    BuiltinToolCompleted,
    Citation,
    Unknown,
}

/// Who keeps the conversation between turns.
#[derive(Clone, Copy, Debug, PartialEq, Eq, Structural)]
pub enum ModelContinuationMode {
    /// The provider keeps it.
    ProviderRetained,
    /// Every request carries it.
    Stateless,
}

/// A provider-neutral model request.
#[derive(PartialEq, Eq)]
pub struct ModelRequest {
    pub model: String,
    pub instructions: Vec<String>,
    pub input: Vec<ModelInputBlock>,
    /// Encoded continuation of an earlier response.
    pub continuation: Option<Vec<u8>>,
    pub continuation_mode: ModelContinuationMode,
    /// Encoded application tools.
    pub tools: Vec<Vec<u8>>,
    /// Encoded builtin tools.
    pub builtin_tools: Vec<Vec<u8>>,
    pub maximum_builtin_tool_calls: Option<u64>,
    /// Encoded schema of the output, where one is asked for.
    pub output_schema: Option<Vec<u8>>,
    pub maximum_output_tokens: Option<u64>,
}

/// Whether two lists hold equal JSON values.
pub open spec fn values_equal(left: Seq<Vec<u8>>, right: Seq<Vec<u8>>) -> bool {
    &&& left.len() == right.len()
    &&& forall|i: int| 0 <= i < left.len() ==> json_equal(#[trigger] left[i]@, right[i]@)
}

/// Whether two optional JSON values are equal.
pub open spec fn value_options_equal(left: Option<Vec<u8>>, right: Option<Vec<u8>>) -> bool {
    match (left, right) {
        (None, None) => true,
        (Some(left), Some(right)) => json_equal(left@, right@),
        _ => false,
    }
}

/// Whether two requests are equal in every part; encoded parts are compared
/// as the values that they encode.
pub open spec fn requests_equal(left: ModelRequest, right: ModelRequest) -> bool {
    &&& left.model@ == right.model@
    &&& left.instructions@.len() == right.instructions@.len()
    &&& forall|i: int|
        0 <= i < left.instructions@.len() ==> (#[trigger] left.instructions@[i])@
            == right.instructions@[i]@
    &&& left.input@.len() == right.input@.len()
    &&& forall|i: int|
        0 <= i < left.input@.len() ==> blocks_equal(#[trigger] left.input@[i], right.input@[i])
    &&& value_options_equal(left.continuation, right.continuation)
    &&& left.continuation_mode == right.continuation_mode
    &&& values_equal(left.tools@, right.tools@)
    &&& values_equal(left.builtin_tools@, right.builtin_tools@)
    &&& left.maximum_builtin_tool_calls == right.maximum_builtin_tool_calls
    &&& value_options_equal(left.output_schema, right.output_schema)
    &&& left.maximum_output_tokens == right.maximum_output_tokens
}

fn same_values(left: &Vec<Vec<u8>>, right: &Vec<Vec<u8>>) -> (result: bool)
    ensures
        result == values_equal(left@, right@),
{
    if left.len() != right.len() {
        return false;
    }
    let mut i: usize = 0;
    while i < left.len()
        invariant
            i <= left@.len() == right@.len(),
            forall|k: int| 0 <= k < i ==> json_equal(#[trigger] left@[k]@, right@[k]@),
        decreases left@.len() - i,
    {
        if !same_json(left[i].as_slice(), right[i].as_slice()) {
            assert(!json_equal(left@[i as int]@, right@[i as int]@));
            return false;
        }
        i += 1;
    }
    true
}

fn same_value_option(left: &Option<Vec<u8>>, right: &Option<Vec<u8>>) -> (result: bool)
    ensures
        result == value_options_equal(*left, *right),
{
    match (left, right) {
        (None, None) => true,
        (Some(left), Some(right)) => same_json(left.as_slice(), right.as_slice()),
        _ => false,
    }
}

fn same_number_option(left: Option<u64>, right: Option<u64>) -> (result: bool)
    ensures
        result == (left == right),
{
    match (left, right) {
        (None, None) => true,
        (Some(left), Some(right)) => left == right,
        _ => false,
    }
}

fn same_instructions(left: &Vec<String>, right: &Vec<String>) -> (result: bool)
    ensures
        result == (left@.len() == right@.len() && forall|i: int|
            0 <= i < left@.len() ==> (#[trigger] left@[i])@ == right@[i]@),
{
    if left.len() != right.len() {
        return false;
    }
    let mut i: usize = 0;
    while i < left.len()
        invariant
            i <= left@.len() == right@.len(),
            forall|k: int| 0 <= k < i ==> (#[trigger] left@[k])@ == right@[k]@,
        decreases left@.len() - i,
    {
        if !same_text(left[i].as_str(), right[i].as_str()) {
            assert(left@[i as int]@ != right@[i as int]@);
            return false;
        }
        i += 1;
    }
    true
}

fn same_input(left: &Vec<ModelInputBlock>, right: &Vec<ModelInputBlock>) -> (result: bool)
    ensures
        result == (left@.len() == right@.len() && forall|i: int|
            0 <= i < left@.len() ==> blocks_equal(#[trigger] left@[i], right@[i])),
{
    if left.len() != right.len() {
        return false;
    }
    let mut i: usize = 0;
    while i < left.len()
        invariant
            i <= left@.len() == right@.len(),
            forall|k: int| 0 <= k < i ==> blocks_equal(#[trigger] left@[k], right@[k]),
        decreases left@.len() - i,
    {
        if !same_block(&left[i], &right[i]) {
            assert(!blocks_equal(left@[i as int], right@[i as int]));
            return false;
        }
        i += 1;
    }
    true
}

/// Whether two requests are equal in every part.
pub fn same_request(left: &ModelRequest, right: &ModelRequest) -> (result: bool)
    ensures
        result == requests_equal(*left, *right),
{
    same_text(left.model.as_str(), right.model.as_str()) && same_instructions(
        &left.instructions,
        &right.instructions,
    ) && same_input(&left.input, &right.input) && same_value_option(
        &left.continuation,
        &right.continuation,
    ) && left.continuation_mode == right.continuation_mode && same_values(&left.tools, &right.tools)
        && same_values(&left.builtin_tools, &right.builtin_tools) && same_number_option(
        left.maximum_builtin_tool_calls,
        right.maximum_builtin_tool_calls,
    ) && same_value_option(&left.output_schema, &right.output_schema) && same_number_option(
        left.maximum_output_tokens,
        right.maximum_output_tokens,
    )
}

/// A provider call that was executed, settled, and bound to its attempt.
#[derive(PartialEq, Eq)]
pub struct AiProviderCallResult {
    pub session_id: Uuid,
    pub run_id: Uuid,
    pub attempt_id: Uuid,
    pub lease_generation: i64,
    pub provider_kind: ProviderKind,
    pub provider_model: String,
    pub provider_response_id: Option<String>,
    pub budget_reservation_id: Uuid,
    pub tool_calls: Vec<ProviderToolCall>,
    pub usage: AiBudgetAmounts,
    pub events: Vec<ProviderEvent>,
    /// The request that was sent.
    pub request: ModelRequest,
    pub model_inference_manifest: AiEgressManifest,
}

/// A tool call that was executed and durably resolved.
#[derive(Debug, PartialEq, Eq)]
pub struct AiPersistedApplicationToolCall {
    pub id: Uuid,
    pub provider_call_id: String,
    pub egress_manifest: Option<AiEgressManifest>,
    /// Whether the turn's route matches the manifest.
    pub route_matches: bool,
    pub model_input: Option<ModelInputBlock>,
    /// Encoded checkpoint form, where the result is model-visible.
    pub checkpoint_value: Option<Vec<u8>>,
}

/// Requests are equal exactly where all of their parts are: model, every
/// instruction, every block of input, the continuation and its mode, the tools,
/// and the bounds.
pub proof fn equal_requests_agree_in_every_part(left: ModelRequest, right: ModelRequest)
    ensures
        requests_equal(left, right) <==> {
            &&& left.model@ == right.model@
            &&& left.instructions@.len() == right.instructions@.len() && forall|i: int|
                0 <= i < right.instructions@.len() ==> left.instructions@[i]@
                    == (#[trigger] right.instructions@[i])@
            &&& left.input@.len() == right.input@.len() && forall|i: int|
                0 <= i < right.input@.len() ==> blocks_equal(
                    left.input@[i],
                    #[trigger] right.input@[i],
                )
            &&& left.continuation is Some <==> right.continuation is Some
            &&& left.continuation is Some ==> json_equal(
                left.continuation->0@,
                right.continuation->0@,
            )
            &&& left.continuation_mode == right.continuation_mode
            &&& left.tools@.len() == right.tools@.len() && forall|i: int|
                0 <= i < right.tools@.len() ==> json_equal(
                    left.tools@[i]@,
                    (#[trigger] right.tools@[i])@,
                )
            &&& left.builtin_tools@.len() == right.builtin_tools@.len() && forall|i: int|
                0 <= i < right.builtin_tools@.len() ==> json_equal(
                    left.builtin_tools@[i]@,
                    (#[trigger] right.builtin_tools@[i])@,
                )
            &&& left.maximum_builtin_tool_calls == right.maximum_builtin_tool_calls
            &&& left.output_schema is Some <==> right.output_schema is Some
            &&& left.output_schema is Some ==> json_equal(
                left.output_schema->0@,
                right.output_schema->0@,
            )
            &&& left.maximum_output_tokens == right.maximum_output_tokens
        },
{
    if requests_equal(left, right) {
        assert forall|i: int| 0 <= i < right.instructions@.len() implies left.instructions@[i]@
            == (#[trigger] right.instructions@[i])@ by {
            assert(left.instructions@[i]@ == right.instructions@[i]@);
        }
        assert forall|i: int| 0 <= i < right.input@.len() implies blocks_equal(
            left.input@[i],
            #[trigger] right.input@[i],
        ) by {
            let block = left.input@[i];
        }
        assert forall|i: int| 0 <= i < right.tools@.len() implies json_equal(
            left.tools@[i]@,
            (#[trigger] right.tools@[i])@,
        ) by {
            let tool = left.tools@[i];
        }
        assert forall|i: int| 0 <= i < right.builtin_tools@.len() implies json_equal(
            left.builtin_tools@[i]@,
            (#[trigger] right.builtin_tools@[i])@,
        ) by {
            let tool = left.builtin_tools@[i];
        }
    }
}

} // verus!
