//! Model input of tool results and the continuations that chain them.

use crate::egress::AiEgressManifest;
use crate::text::same_text;
use vstd::prelude::*;

verus! {

/// One block of model input.
#[derive(Debug, PartialEq, Eq)]
pub enum ModelInputBlock {
    /// The result of one tool call, with its encoded output.
    ToolResult { call_id: String, tool_id: String, output: Vec<u8> },
    /// One structured value, encoded.
    Json { value: Vec<u8> },
    /// An attachment, encoded.
    Attachment { encoding: Vec<u8> },
    /// Any other block, encoded.
    Other { encoding: Vec<u8> },
}

/// One authorized transfer of a tool result.
#[derive(Debug, PartialEq, Eq)]
pub struct RoutedTransfer {
    pub manifest: AiEgressManifest,
    /// Whether the turn's route matches the manifest.
    pub route_matches: bool,
}

/// One tool of a bounded stateless history.
#[derive(Debug, PartialEq, Eq)]
pub struct StatelessTool {
    pub call_id: String,
    pub tool_id: String,
    pub provider_name: String,
    pub tool_fingerprint: String,
    pub arguments: Vec<u8>,
    pub output: Vec<u8>,
    pub provider_turn_index: i64,
    pub tool_call_index: usize,
}

/// History that a stateless continuation carries; the last
/// `current_tool_count` tools belong to the current batch.
#[derive(Debug, PartialEq, Eq)]
pub struct StatelessEvidence {
    pub provider_turns: u32,
    pub tools: Vec<StatelessTool>,
    pub current_tool_count: usize,
}

/// Opaque chain from a completed tool batch to the next provider turn.
#[derive(Debug, PartialEq, Eq)]
pub struct AiAgentContinuation {
    pub provider_response_id: Option<String>,
    pub input: Vec<ModelInputBlock>,
    pub transfers: Vec<RoutedTransfer>,
    pub replay_transfers: Vec<RoutedTransfer>,
    pub stateless_evidence: Option<StatelessEvidence>,
}

/// Whether the manifest transfers exactly one tool result, with this
/// reference.
pub open spec fn transfers_tool(manifest: AiEgressManifest, reference: Seq<char>) -> bool {
    &&& manifest.sources@.len() == 1
    &&& manifest.sources@[0].kind@ == "application_tool_result"@
    &&& manifest.sources@[0].reference@ == reference
}

/// Whether the manifest transfers exactly one tool result, with this
/// reference.
pub fn is_tool_transfer(manifest: &AiEgressManifest, reference: &str) -> (result: bool)
    ensures
        result == transfers_tool(*manifest, reference@),
{
    manifest.sources.len() == 1 && same_text(
        manifest.sources[0].kind.as_str(),
        "application_tool_result",
    ) && same_text(manifest.sources[0].reference.as_str(), reference)
}

/// Whether the manifest transfers exactly one tool result.
pub open spec fn transfers_some_tool(manifest: AiEgressManifest) -> bool {
    &&& manifest.sources@.len() == 1
    &&& manifest.sources@[0].kind@ == "application_tool_result"@
}

/// Whether the manifest transfers exactly one tool result.
pub fn is_some_tool_transfer(manifest: &AiEgressManifest) -> (result: bool)
    ensures
        result == transfers_some_tool(*manifest),
{
    manifest.sources.len() == 1 && same_text(
        manifest.sources[0].kind.as_str(),
        "application_tool_result",
    )
}

/// A manifest transfers a tool result exactly where that result is all that it
/// discloses.
pub proof fn tool_transfers_disclose_one_result(manifest: AiEgressManifest, reference: Seq<char>)
    ensures
        transfers_some_tool(manifest) <==> manifest.sources@.len() == 1
            && manifest.sources@[0].kind@ == "application_tool_result"@,
        transfers_tool(manifest, reference) <==> manifest.sources@.len() == 1
            && manifest.sources@[0].kind@ == "application_tool_result"@
            && manifest.sources@[0].reference@ == reference,
{
}

} // verus!
