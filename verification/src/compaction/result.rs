//! Prepared compactions, their provider results, and loaded checkpoints.

use crate::access::{AiRunLease, session_bound, validate_session_binding};
use crate::authority::{Actor, AuthorityCheck, AuthorityModel, ContentAuthority};
use crate::checkpoints::continuation::ModelInputBlock;
use crate::compaction::chain::{
    AcceptedChain, AiContextCheckpointRecord, AiContextSourceMessage, ChainModel,
    StoredCheckpointPayload, StoredParent, checkpoint_row_valid, first_sequence, latest_row,
    payload_opens, provenance_item_valid, provenance_valid,
};
use crate::compaction::limits::{
    AiContextCompactionLimits, CompactionBounds, admit_compaction_request, bounds_valid,
    compaction_request_valid,
};
use crate::compaction::preparation::{
    COMPACTION_INSTRUCTION, CompactionBoundary, CompactionSources, PreparedContextCheckpointSource,
    SealedPrompt, boundary_refusal, compaction_sources, gathered_blocks,
    lemma_latest_valid_in_range, message_prompted, parent_source, provenance_records,
    require_running, seal_prompt, select_boundary, source_gathered, source_hash_message,
    start_after,
};
use crate::compaction::prompt::{
    PromptModel, compaction_prompt, message_models, prompt_json, prompt_model, prompt_text,
};
use crate::compaction::sources::{matches_sorted, same_source_set, source_order};
use crate::digest::{Uuid, hex_text, sha256_digest};
use crate::egress::{
    AiDataSourceRef, AiEgressCapability, SourceModel, same_id_option, source_models,
};
use crate::error::{
    AiError, ErrorModel, OrmErrorCode, accepted_or, invalid_input, map_orm, mapped_orm, outcome,
    refusal,
};
use crate::principal::{AiScope, same_scope};
use crate::provider::{ProviderKind, provider_kind_text};
use crate::provider_result::{
    AiProviderCallResult, ModelContinuationMode, ModelRequest, ProviderEvent, requests_equal,
    same_request,
};
use crate::records::AiSessionRecord;
use crate::text::{blank, byte_len, is_blank, join, same_text, text_len};
use vstd::prelude::*;
use vstd::relations::sorted_by;
use vstd::utf8::encode_utf8;

verus! {

/// Exact, protected compaction input ready for the ordinary provider-call
/// executor.
///
/// This value contains opened conversational content and must remain inside
/// the trusted backend; it has no textual form beyond
/// [`AiPreparedContextCompaction::redacted`]. It grants no provider authority:
/// callers must build a provider plan whose model-inference manifest contains
/// the exact [`AiPreparedContextCompaction::egress_sources`] and execute it
/// with [`AiPreparedContextCompaction::lease`].
pub struct AiPreparedContextCompaction {
    lease: AiRunLease,
    checkpoint_id: Uuid,
    scope: AiScope,
    provider_kind: ProviderKind,
    request: ModelRequest,
    egress_sources: Vec<AiDataSourceRef>,
    estimated_source_bytes: u64,
    estimated_source_tokens: u64,
    through_sequence: i64,
    source_hash: String,
    parent: Option<AiContextCheckpointRecord>,
    sources: Vec<PreparedContextCheckpointSource>,
    provenance: Vec<AiContextSourceMessage>,
    session: AiSessionRecord,
    limits: AiContextCompactionLimits,
    prompt: Ghost<PromptModel>,
}

/// The parts of [`AiPreparedContextCompaction`] that later steps rely on.
pub struct PreparationModel {
    pub lease: AiRunLease,
    pub checkpoint_id: Uuid,
    pub scope: AiScope,
    pub provider_kind: ProviderKind,
    pub request: ModelRequest,
    pub egress_sources: Seq<AiDataSourceRef>,
    pub estimated_source_bytes: u64,
    pub estimated_source_tokens: u64,
    pub through_sequence: i64,
    pub source_hash: Seq<char>,
    pub parent: Option<AiContextCheckpointRecord>,
    pub sources: Seq<PreparedContextCheckpointSource>,
    pub provenance: Seq<AiContextSourceMessage>,
    pub session: AiSessionRecord,
    pub bounds: CompactionBounds,
    /// What the request's input encodes.
    pub prompt: PromptModel,
}

impl View for AiPreparedContextCompaction {
    type V = PreparationModel;

    closed spec fn view(&self) -> PreparationModel {
        PreparationModel {
            lease: self.lease,
            checkpoint_id: self.checkpoint_id,
            scope: self.scope,
            provider_kind: self.provider_kind,
            request: self.request,
            egress_sources: self.egress_sources@,
            estimated_source_bytes: self.estimated_source_bytes,
            estimated_source_tokens: self.estimated_source_tokens,
            through_sequence: self.through_sequence,
            source_hash: self.source_hash@,
            parent: self.parent,
            sources: self.sources@,
            provenance: self.provenance@,
            session: self.session,
            bounds: self.limits@,
            prompt: self.prompt@,
        }
    }
}

/// What may be shown of a prepared compaction: no conversational content.
#[derive(Debug, PartialEq, Eq)]
pub struct RedactedContextCompaction {
    pub session_id: Uuid,
    pub run_id: Uuid,
    pub checkpoint_id: Uuid,
    pub provider_kind: ProviderKind,
    pub provider_model: String,
    pub through_sequence: i64,
    pub source_hash: String,
    pub source_message_count: usize,
}

/// The encoded value that a request's input begins with.
pub open spec fn input_value(request: ModelRequest) -> Seq<u8> {
    match request.input@[0] {
        ModelInputBlock::Json { value } => value@,
        _ => Seq::empty(),
    }
}

/// Whether the request is the compaction of this prompt by this model: the
/// fixed instruction, no tools, no continuation, and no output schema.
pub open spec fn requests_compaction(
    request: ModelRequest,
    model: Seq<char>,
    prompt: Seq<u8>,
    maximum_output_tokens: u64,
) -> bool {
    &&& request.model@ == model
    &&& request.instructions@.len() == 1
    &&& request.instructions@[0]@ == COMPACTION_INSTRUCTION@
    &&& request.input@.len() == 1
    &&& request.input@[0] is Json
    &&& input_value(request) == prompt
    &&& request.continuation is None
    &&& request.continuation_mode is ProviderRetained
    &&& request.tools@.len() == 0
    &&& request.builtin_tools@.len() == 0
    &&& request.maximum_builtin_tool_calls is None
    &&& request.output_schema is None
    &&& request.maximum_output_tokens == Some(maximum_output_tokens)
}

/// The request of a compaction: the fixed instruction and the encoded prompt.
pub fn compaction_request(
    model: String,
    prompt: Vec<u8>,
    maximum_output_tokens: u64,
) -> (request: ModelRequest)
    ensures
        requests_compaction(request, model@, prompt@, maximum_output_tokens),
{
    let mut input: Vec<ModelInputBlock> = Vec::new();
    input.push(ModelInputBlock::Json { value: prompt });
    let mut instructions: Vec<String> = Vec::new();
    instructions.push(COMPACTION_INSTRUCTION.to_owned());
    ModelRequest {
        model,
        instructions,
        input,
        continuation: None,
        continuation_mode: ModelContinuationMode::ProviderRetained,
        tools: Vec::new(),
        builtin_tools: Vec::new(),
        maximum_builtin_tool_calls: None,
        output_schema: None,
        maximum_output_tokens: Some(maximum_output_tokens),
    }
}

/// What one compaction is asked for.
#[derive(Debug, PartialEq, Eq)]
pub struct CompactionOrder {
    pub provider_kind: ProviderKind,
    pub model: String,
    pub through_sequence: i64,
    pub maximum_output_tokens: u64,
}

/// Whether exactly the messages after the latest valid checkpoint up to the
/// boundary were gathered, within the bound on blocks.
pub open spec fn gathered_completely(
    gathered: CompactionSources,
    session_id: Uuid,
    checkpoints: Seq<AiContextCheckpointRecord>,
    through_sequence: i64,
    bounds: CompactionBounds,
) -> bool {
    &&& gathered.session_id == session_id
    &&& gathered.start_sequence == start_after(checkpoints)
    &&& gathered.sources@.len() == through_sequence - start_after(checkpoints) + 1
    &&& gathered.total_blocks <= bounds.source_blocks
}

/// Why a compaction cannot be assembled, in the order of checks.
pub open spec fn assembly_refusal(
    lease: AiRunLease,
    authority: AuthorityModel,
    order: CompactionOrder,
    gathered: CompactionSources,
    chain: ChainModel,
    encoded: Seq<u8>,
) -> Option<ErrorModel> {
    let boundary = boundary_refusal(
        authority.session,
        chain.checkpoints,
        order.through_sequence,
        chain.bounds,
    );
    if !compaction_request_valid(
        order.model@,
        order.through_sequence,
        order.maximum_output_tokens,
        chain.bounds,
    ) {
        Some(ErrorModel::InvalidInput("invalid context-compaction request"@))
    } else if !(lease.state is Running) {
        Some(ErrorModel::Conflict)
    } else if !session_bound(authority.session, lease, authority.scope@) {
        Some(ErrorModel::Forbidden)
    } else if boundary is Some {
        boundary
    } else if !gathered_completely(
        gathered,
        authority.session.id,
        chain.checkpoints,
        order.through_sequence,
        chain.bounds,
    ) || encoded.len() > chain.bounds.source_bytes {
        Some(ErrorModel::Conflict)
    } else {
        None
    }
}

/// First message that a compaction of this parent summarizes.
pub open spec fn first_after(parent: Option<AiContextCheckpointRecord>) -> int {
    match parent {
        Some(row) => row.through_sequence + 1,
        None => 1,
    }
}

/// Whether the compaction covers exactly the messages after its parent up to
/// its boundary, each complete, and leaves the recent tail verbatim.
pub open spec fn covers_boundary(prepared: PreparationModel) -> bool {
    let start = first_after(prepared.parent);
    &&& prepared.parent matches Some(row) ==> row.invalidated_at is None && checkpoint_row_valid(
        row,
        prepared.session.id,
        prepared.session.message_head,
    )
    &&& start <= prepared.through_sequence
    &&& prepared.session.message_head - prepared.through_sequence
        >= prepared.bounds.recent_messages
    &&& prepared.sources.len() == prepared.through_sequence - start + 1
    &&& prepared.sources.len() <= prepared.bounds.source_messages
    &&& gathered_blocks(prepared.sources, prepared.sources.len())
        <= prepared.bounds.source_blocks
    &&& prepared.provenance.len() == prepared.sources.len()
    &&& forall|i: int|
        0 <= i < prepared.sources.len() ==> source_gathered(
            #[trigger] prepared.sources[i],
            prepared.session.id,
            start + i,
        )
    &&& forall|i: int|
        0 <= i < prepared.sources.len() ==> provenance_records(
            (#[trigger] prepared.provenance[i])@,
            prepared.sources[i],
        )
}

/// Whether the compaction discloses exactly its sources: one entry for each
/// block and one for the parent, in ascending order.
pub open spec fn discloses_sources(prepared: PreparationModel) -> bool {
    &&& sorted_by(source_models(prepared.egress_sources), source_order())
    &&& source_models(prepared.egress_sources).to_multiset() == compaction_sources(
        prepared.sources,
        prepared.parent,
    ).to_multiset()
}

/// Whether the request carries exactly the sealed prompt, within the bounds.
pub open spec fn seals_request(prepared: PreparationModel) -> bool {
    let request = prepared.request;
    let encoded = input_value(request);
    &&& request.maximum_output_tokens matches Some(tokens) && requests_compaction(
        request,
        request.model@,
        encoded,
        tokens,
    ) && compaction_request_valid(
        request.model@,
        prepared.through_sequence,
        tokens,
        prepared.bounds,
    )
    &&& encoded.len() <= prepared.bounds.source_bytes
    &&& prepared.estimated_source_bytes == encoded.len()
    &&& prepared.estimated_source_tokens == prepared.estimated_source_bytes
    &&& prepared.source_hash == hex_text(sha256_digest(source_hash_message(encoded)))
}

/// Whether the prompt holds exactly the extended checkpoint and the sources,
/// each message with its blocks in order.
pub open spec fn composes_prompt(prepared: PreparationModel) -> bool {
    let prompt = prepared.prompt;
    &&& prompt.format_version == 1
    &&& prompt.session_id == prepared.session.id
    &&& prompt.through_sequence == prepared.through_sequence
    &&& prompt.parent is Some <==> prepared.parent is Some
    &&& prompt.parent matches Some(parent) ==> {
        &&& parent.checkpoint_id == prepared.parent->0.id
        &&& parent.through_sequence == prepared.parent->0.through_sequence
        &&& parent.source_hash == prepared.parent->0.source_hash@
    }
    &&& prompt.messages.len() == prepared.sources.len()
    &&& forall|i: int|
        0 <= i < prompt.messages.len() ==> message_prompted(
            #[trigger] prompt.messages[i],
            prepared.sources[i],
        )
}

/// Whether the request's input is the encoding of the prompt.
pub open spec fn encodes_prompt(prepared: PreparationModel) -> bool {
    input_value(prepared.request) == prompt_json(prepared.prompt)
}

/// Whether the compaction is of a running lease's own session, covers exactly
/// the messages up to its boundary, discloses exactly them, and has a sealed
/// request and a prompt of exactly them.
pub open spec fn compaction_complete(prepared: PreparationModel) -> bool {
    &&& prepared.lease.state is Running
    &&& session_bound(prepared.session, prepared.lease, prepared.scope@)
    &&& covers_boundary(prepared)
    &&& discloses_sources(prepared)
    &&& seals_request(prepared)
    &&& composes_prompt(prepared)
}

/// What an assembled compaction is made of.
pub open spec fn assembled_from(
    prepared: PreparationModel,
    lease: AiRunLease,
    checkpoint_id: Uuid,
    authority: AuthorityModel,
    order: CompactionOrder,
    gathered: CompactionSources,
    chain: ChainModel,
) -> bool {
    &&& prepared.lease == lease
    &&& prepared.checkpoint_id == checkpoint_id
    &&& prepared.scope == authority.scope
    &&& prepared.provider_kind == order.provider_kind
    &&& requests_compaction(
        prepared.request,
        order.model@,
        input_value(prepared.request),
        order.maximum_output_tokens,
    )
    &&& prepared.through_sequence == order.through_sequence
    &&& prepared.parent == latest_row(chain.checkpoints)
    &&& prepared.sources == gathered.sources@
    &&& prepared.provenance == gathered.provenance@
    &&& prepared.session == authority.session
    &&& prepared.bounds == chain.bounds
    &&& prepared.prompt == gathered_prompt(order, gathered, chain)
}

/// The prompt of an ordered compaction: everything that was gathered, behind
/// the summary of the latest checkpoint.
pub open spec fn gathered_prompt(
    order: CompactionOrder,
    gathered: CompactionSources,
    chain: ChainModel,
) -> PromptModel {
    prompt_model(gathered.session_id, order.through_sequence, chain, gathered.messages@)
}

/// A compaction whose request the provider layer has not accepted yet.
pub struct ComposedCompaction {
    prepared: AiPreparedContextCompaction,
}

impl View for ComposedCompaction {
    type V = PreparationModel;

    closed spec fn view(&self) -> PreparationModel {
        self.prepared@
    }
}

impl ComposedCompaction {
    /// Complete compositions.
    pub open spec fn wf(self) -> bool {
        compaction_complete(self@)
    }

    /// Composes an authorized compaction from its gathered sources and the
    /// session's accepted chain, and encodes its prompt.
    ///
    /// # Errors
    ///
    /// Refuses whatever the boundary refuses, and every set of sources other
    /// than the complete range from the latest valid checkpoint up to it.
    pub fn compose(
        lease: AiRunLease,
        checkpoint_id: Uuid,
        authority: &ContentAuthority,
        order: CompactionOrder,
        gathered: CompactionSources,
        chain: AcceptedChain,
    ) -> (result: Result<ComposedCompaction, AiError>)
        requires
            authority.wf(),
            gathered.wf(),
            chain.wf(),
            bounds_valid(chain@.bounds),
        ensures
            refusal(result) == assembly_refusal(
                lease,
                authority@,
                order,
                gathered,
                chain@,
                prompt_json(gathered_prompt(order, gathered, chain@)),
            ),
            result matches Ok(composed) ==> composed.wf() && encodes_prompt(composed@)
                && assembled_from(
                composed@,
                lease,
                checkpoint_id,
                authority@,
                order,
                gathered,
                chain@,
            ),
    {
        let encoded: Vec<u8> = prompt_text(
            &compaction_prompt(
                gathered.session_id,
                order.through_sequence,
                &chain,
                &gathered.messages,
            ),
        );
        ComposedCompaction::seal(lease, checkpoint_id, authority, order, gathered, chain, encoded)
    }

    /// Seals a compaction with the encoding of its prompt.
    pub fn seal(
        lease: AiRunLease,
        checkpoint_id: Uuid,
        authority: &ContentAuthority,
        order: CompactionOrder,
        gathered: CompactionSources,
        chain: AcceptedChain,
        encoded: Vec<u8>,
    ) -> (result: Result<ComposedCompaction, AiError>)
        requires
            authority.wf(),
            gathered.wf(),
            chain.wf(),
            bounds_valid(chain@.bounds),
        ensures
            refusal(result) == assembly_refusal(
                lease,
                authority@,
                order,
                gathered,
                chain@,
                encoded@,
            ),
            result matches Ok(composed) ==> {
                &&& composed.wf()
                &&& assembled_from(
                    composed@,
                    lease,
                    checkpoint_id,
                    authority@,
                    order,
                    gathered,
                    chain@,
                )
                &&& input_value(composed@.request) == encoded@
            },
    {
        let limits = chain.limits();
        match admit_compaction_request(
            order.model.as_str(),
            order.through_sequence,
            order.maximum_output_tokens,
            limits,
        ) {
            Ok(()) => {},
            Err(error) => return Err(error),
        }
        match require_running(&lease) {
            Ok(()) => {},
            Err(error) => return Err(error),
        }
        match validate_session_binding(authority.session(), &lease, authority.scope()) {
            Ok(()) => {},
            Err(error) => return Err(error),
        }
        let boundary: CompactionBoundary = match select_boundary(
            authority.session(),
            chain.checkpoints(),
            order.through_sequence,
            limits,
        ) {
            Ok(boundary) => boundary,
            Err(error) => return Err(error),
        };
        if gathered.session_id != authority.session().id || gathered.start_sequence
            != boundary.start_sequence || gathered.sources.len() != boundary.message_count
            || gathered.total_blocks > limits.maximum_source_blocks() {
            return Err(AiError::Conflict);
        }
        let sealed: SealedPrompt = match seal_prompt(encoded.as_slice(), limits) {
            Ok(sealed) => sealed,
            Err(error) => return Err(error),
        };
        proof {
            lemma_latest_valid_in_range(chain@.checkpoints, 0);
        }
        let ghost prompt = gathered_prompt(order, gathered, chain@);
        let parent: Option<AiContextCheckpointRecord> = match chain.into_latest() {
            Some((row, _)) => Some(row),
            None => None,
        };
        let egress_sources = gathered.egress(parent.as_ref());
        let prepared = AiPreparedContextCompaction {
            lease,
            checkpoint_id,
            scope: authority.scope().clone(),
            provider_kind: order.provider_kind,
            request: compaction_request(order.model, encoded, order.maximum_output_tokens),
            egress_sources,
            estimated_source_bytes: sealed.estimated_source_bytes,
            estimated_source_tokens: sealed.estimated_source_tokens,
            through_sequence: order.through_sequence,
            source_hash: sealed.source_hash,
            parent,
            sources: gathered.sources,
            provenance: gathered.provenance,
            session: authority.session().clone(),
            limits,
            prompt: Ghost(prompt),
        };
        proof {
            assert forall|i: int| 0 <= i < prompt.messages.len() implies message_prompted(
                #[trigger] prompt.messages[i],
                prepared@.sources[i],
            ) by {
                assert(prompt.messages[i] == gathered.messages@[i]@);
            }
        }
        Ok(ComposedCompaction { prepared })
    }

    /// The request that the provider layer is to check.
    pub fn model_request(&self) -> (request: &ModelRequest)
        ensures
            *request == self@.request,
    {
        &self.prepared.request
    }

    /// Hands out the compaction, where the provider layer accepts its request.
    pub fn accept_request(self, request_valid: bool) -> (result: Result<
        AiPreparedContextCompaction,
        AiError,
    >)
        requires
            self.wf(),
        ensures
            refusal(result) == if request_valid {
                None
            } else {
                Some(ErrorModel::InvalidInput("invalid compaction request"@))
            },
            result matches Ok(prepared) ==> prepared.wf() && prepared@ == self@,
    {
        if request_valid {
            Ok(self.prepared)
        } else {
            Err(invalid_input("invalid compaction request"))
        }
    }
}

impl AiPreparedContextCompaction {
    /// Complete compactions.
    pub open spec fn wf(self) -> bool {
        compaction_complete(self@)
    }

    /// Begins a new check of authority over the session that was read when the
    /// compaction was prepared.
    pub fn begin_authority(&self) -> (result: Result<AuthorityCheck, AiError>)
        requires
            self.wf(),
        ensures
            result is Ok,
            result matches Ok(check) ==> {
                &&& check.wf()
                &&& check@.stage is Bound
                &&& check@.scope == self@.scope
                &&& check@.session == self@.session
                &&& check@.evidence.actor matches Actor::Worker { lease, .. } && lease
                    == self@.lease
            },
    {
        AuthorityCheck::begin(&Some(self.session.clone()), &self.lease, &self.scope)
    }

    /// Renewed current lease that must execute the provider request.
    pub fn lease(&self) -> (lease: &AiRunLease)
        ensures
            *lease == self@.lease,
    {
        &self.lease
    }

    /// Exact provider-neutral request. Its content is sensitive.
    pub fn model_request(&self) -> (request: &ModelRequest)
        ensures
            *request == self@.request,
    {
        &self.request
    }

    /// Exact redacted source set required in the model-inference manifest.
    pub fn egress_sources(&self) -> (sources: &Vec<AiDataSourceRef>)
        ensures
            sources@ == self@.egress_sources,
    {
        &self.egress_sources
    }

    /// Exact serialized source bytes placed in the request input.
    pub fn estimated_source_bytes(&self) -> (bytes: u64)
        ensures
            bytes == self@.estimated_source_bytes,
    {
        self.estimated_source_bytes
    }

    /// Conservative source-token estimate for manifest construction.
    pub fn estimated_source_tokens(&self) -> (tokens: u64)
        ensures
            tokens == self@.estimated_source_tokens,
    {
        self.estimated_source_tokens
    }

    /// Inclusive session sequence covered by the resulting checkpoint.
    pub fn through_sequence(&self) -> (sequence: i64)
        ensures
            sequence == self@.through_sequence,
    {
        self.through_sequence
    }

    /// SHA-256 of the encoded prompt, which holds the parent summary and every
    /// newly opened source block.
    pub fn source_hash(&self) -> (hash: &str)
        ensures
            hash@ == self@.source_hash,
    {
        self.source_hash.as_str()
    }

    /// What may be shown of the compaction.
    pub fn redacted(&self) -> (view: RedactedContextCompaction)
        ensures
            view.session_id == self@.lease.session_id,
            view.run_id == self@.lease.run_id,
            view.checkpoint_id == self@.checkpoint_id,
            view.provider_kind == self@.provider_kind,
            view.provider_model == self@.request.model,
            view.through_sequence == self@.through_sequence,
            view.source_hash@ == self@.source_hash,
            view.source_message_count == self@.sources.len(),
    {
        RedactedContextCompaction {
            session_id: self.lease.session_id,
            run_id: self.lease.run_id,
            checkpoint_id: self.checkpoint_id,
            provider_kind: self.provider_kind,
            provider_model: self.request.model.clone(),
            through_sequence: self.through_sequence,
            source_hash: self.source_hash.clone(),
            source_message_count: self.sources.len(),
        }
    }
}

/// The source hash of a composed compaction binds the parent summary and every
/// opened block: it is the digest of the encoding of the prompt that holds
/// exactly them.
pub proof fn source_hash_binds_prompt(
    composed: PreparationModel,
    lease: AiRunLease,
    checkpoint_id: Uuid,
    authority: AuthorityModel,
    order: CompactionOrder,
    gathered: CompactionSources,
    chain: ChainModel,
)
    requires
        compaction_complete(composed),
        encodes_prompt(composed),
        assembled_from(composed, lease, checkpoint_id, authority, order, gathered, chain),
    ensures
        ({
            let prompt = prompt_model(
                composed.session.id,
                order.through_sequence,
                chain,
                gathered.messages@,
            );
            composed.source_hash == hex_text(
                sha256_digest(source_hash_message(prompt_json(prompt))),
            )
        }),
{
}

/// Whether the result was produced from exactly the prepared request, under
/// the same fence, with exactly the prepared sources disclosed.
pub open spec fn result_binds(prepared: PreparationModel, result: AiProviderCallResult) -> bool {
    let manifest = result.model_inference_manifest;
    &&& result.session_id == prepared.lease.session_id
    &&& result.run_id == prepared.lease.run_id
    &&& result.attempt_id == prepared.lease.attempt_id
    &&& result.lease_generation == prepared.lease.lease_generation
    &&& result.provider_kind == prepared.provider_kind
    &&& result.provider_model@ == prepared.request.model@
    &&& requests_equal(result.request, prepared.request)
    &&& result.tool_calls@.len() == 0
    &&& result.usage.runs == 1
    &&& result.usage.output_tokens > 0
    &&& manifest.capability is ModelInference
    &&& manifest.provider_kind@ == provider_kind_text(prepared.provider_kind)
    &&& manifest.model@ == prepared.request.model@
    &&& manifest.scope@ == prepared.scope@
    &&& manifest.session_id == Some(prepared.lease.session_id)
    &&& manifest.run_id == Some(prepared.lease.run_id)
    &&& manifest.attachment_count == 0
    &&& manifest.purpose@ == "context_compaction"@
    &&& manifest.estimated_bytes >= prepared.estimated_source_bytes
    &&& manifest.estimated_tokens >= prepared.estimated_source_tokens
    &&& same_source_set(manifest.sources@, prepared.egress_sources)
}

/// Accepts exactly the results of the prepared compaction.
pub fn validate_result(prepared: &AiPreparedContextCompaction, result: &AiProviderCallResult) -> (verdict:
    Result<(), AiError>)
    requires
        prepared.wf(),
    ensures
        outcome(verdict) == accepted_or(result_binds(prepared@, *result), ErrorModel::Conflict),
{
    let manifest = &result.model_inference_manifest;
    let inference: bool = match manifest.capability {
        AiEgressCapability::ModelInference => true,
        _ => false,
    };
    if result.session_id == prepared.lease.session_id && result.run_id == prepared.lease.run_id
        && result.attempt_id == prepared.lease.attempt_id && result.lease_generation
        == prepared.lease.lease_generation && result.provider_kind == prepared.provider_kind
        && same_text(result.provider_model.as_str(), prepared.request.model.as_str())
        && same_request(&result.request, &prepared.request) && result.tool_calls.len() == 0 && result.usage.runs == 1 && result.usage.output_tokens > 0
        && inference && same_text(manifest.provider_kind.as_str(), prepared.provider_kind.as_str())
        && same_text(manifest.model.as_str(), prepared.request.model.as_str()) && same_scope(
        &manifest.scope,
        &prepared.scope,
    ) && same_id_option(manifest.session_id, Some(prepared.lease.session_id)) && same_id_option(
        manifest.run_id,
        Some(prepared.lease.run_id),
    ) && manifest.attachment_count == 0 && same_text(
        manifest.purpose.as_str(),
        "context_compaction",
    ) && manifest.estimated_bytes >= prepared.estimated_source_bytes && manifest.estimated_tokens
        >= prepared.estimated_source_tokens && matches_sorted(
        &manifest.sources,
        &prepared.egress_sources,
    ) {
        Ok(())
    } else {
        Err(AiError::Conflict)
    }
}

/// Events that a plain summary may consist of.
pub open spec fn summary_event(event: ProviderEvent) -> bool {
    event is TextDelta || event is ResponseStarted || event is Usage || event is ResponseCompleted
}

/// The text of the first `count` events.
pub open spec fn delta_text(events: Seq<ProviderEvent>, count: nat) -> Seq<char>
    decreases count,
{
    if count == 0 {
        Seq::empty()
    } else {
        let before = delta_text(events, (count - 1) as nat);
        match events[count - 1] {
            ProviderEvent::TextDelta { text } => before + text@,
            _ => before,
        }
    }
}

/// Whether the events are a plain summary within the bound.
pub open spec fn summary_accepted(events: Seq<ProviderEvent>, maximum_bytes: nat) -> bool {
    &&& forall|i: int| 0 <= i < events.len() ==> summary_event(#[trigger] events[i])
    &&& byte_len(delta_text(events, events.len())) <= maximum_bytes
    &&& !blank(delta_text(events, events.len()))
}

proof fn lemma_delta_grows(events: Seq<ProviderEvent>, count: nat, total: nat)
    requires
        count <= total <= events.len(),
    ensures
        byte_len(delta_text(events, count)) <= byte_len(delta_text(events, total)),
    decreases total,
{
    if count < total {
        lemma_delta_grows(events, count, (total - 1) as nat);
        match events[total - 1] {
            ProviderEvent::TextDelta { text } => {
                lemma_encode_concat(delta_text(events, (total - 1) as nat), text@);
            },
            _ => {},
        }
    }
}

proof fn lemma_encode_concat(left: Seq<char>, right: Seq<char>)
    ensures
        encode_utf8(left + right) == encode_utf8(left) + encode_utf8(right),
    decreases left.len(),
{
    if left.len() == 0 {
        assert(left + right =~= right);
        assert(encode_utf8(left) + encode_utf8(right) =~= encode_utf8(right));
    } else {
        lemma_encode_concat(left.drop_first(), right);
        assert((left + right).drop_first() =~= left.drop_first() + right);
        assert(encode_utf8(left + right) =~= encode_utf8(left) + encode_utf8(right));
    }
}

/// The summary text of a provider result: all text deltas joined, within the
/// bound and not blank. Any other visible event is refused.
pub fn summary_text(events: &Vec<ProviderEvent>, maximum_bytes: usize) -> (result: Result<
    String,
    AiError,
>)
    ensures
        match result {
            Ok(summary) => summary_accepted(events@, maximum_bytes as nat) && summary@
                == delta_text(events@, events@.len()),
            Err(error) => !summary_accepted(events@, maximum_bytes as nat) && error@
                == ErrorModel::Conflict,
        },
{
    let mut summary = String::new();
    let mut i: usize = 0;
    proof {
        assert(encode_utf8(Seq::<char>::empty()) =~= Seq::<u8>::empty());
    }
    while i < events.len()
        invariant
            i <= events@.len(),
            summary@ == delta_text(events@, i as nat),
            byte_len(summary@) <= maximum_bytes,
            forall|k: int| 0 <= k < i ==> summary_event(#[trigger] events@[k]),
        decreases events@.len() - i,
    {
        match &events[i] {
            ProviderEvent::TextDelta { text } => {
                let current: usize = text_len(summary.as_str());
                let added: usize = text_len(text.as_str());
                proof {
                    lemma_encode_concat(summary@, text@);
                }
                if added > maximum_bytes - current {
                    proof {
                        lemma_delta_grows(events@, (i + 1) as nat, events@.len());
                    }
                    return Err(AiError::Conflict);
                }
                summary = join(summary.as_str(), text.as_str());
            },
            ProviderEvent::ResponseStarted
            | ProviderEvent::Usage
            | ProviderEvent::ResponseCompleted => {},
            _ => {
                assert(!summary_event(events@[i as int]));
                return Err(AiError::Conflict);
            },
        }
        i += 1;
    }
    if is_blank(summary.as_str()) {
        return Err(AiError::Conflict);
    }
    Ok(summary)
}

/// The checkpoint to append, apart from its protected summary.
#[derive(Debug, PartialEq, Eq)]
pub struct PreparedContextCheckpoint {
    pub id: Uuid,
    pub through_sequence: i64,
    pub source_hash: String,
    pub token_estimate: i64,
    pub provider_kind: String,
    pub provider_model: String,
    pub expected_parent: Option<AiContextCheckpointRecord>,
    pub sources: Vec<PreparedContextCheckpointSource>,
    pub maximum_checkpoints_per_session: usize,
    pub expected_owner_principal_kind: String,
    pub expected_owner_subject: String,
    pub expected_scope: AiScope,
}

/// What a store failure becomes at this service's boundary. Unlike elsewhere,
/// a violated constraint is malformed durable state here.
pub open spec fn mapped_compaction_orm(code: OrmErrorCode, message: Seq<char>) -> ErrorModel {
    if code is ConstraintViolation {
        ErrorModel::PersistenceFailed
    } else {
        mapped_orm(code, message)
    }
}

/// Maps a store failure to a safe error.
pub fn map_compaction_orm(code: OrmErrorCode, message: &str) -> (error: AiError)
    ensures
        error@ == mapped_compaction_orm(code, message@),
{
    match code {
        OrmErrorCode::ConstraintViolation => AiError::PersistenceFailed,
        other => map_orm(other, message),
    }
}

/// What persisting a compaction writes: the payload to protect and the
/// checkpoint to append.
pub struct ContextCheckpointWrite {
    pub payload: StoredCheckpointPayload,
    pub checkpoint: PreparedContextCheckpoint,
    pub lease: AiRunLease,
}

/// Whether the payload records exactly the prepared compaction and its result.
pub open spec fn payload_records(
    payload: StoredCheckpointPayload,
    prepared: PreparationModel,
    result: AiProviderCallResult,
) -> bool {
    &&& payload.format_version == 1
    &&& payload.checkpoint_id == prepared.checkpoint_id
    &&& payload.session_id == prepared.lease.session_id
    &&& payload.through_sequence == prepared.through_sequence
    &&& payload.source_hash@ == prepared.source_hash
    &&& payload.summary@ == delta_text(result.events@, result.events@.len())
    &&& match (payload.parent, prepared.parent) {
        (Some(stored), Some(row)) => stored.checkpoint_id == row.id && stored.through_sequence
            == row.through_sequence && stored.source_hash == row.source_hash,
        (None, None) => true,
        _ => false,
    }
    &&& payload.source_messages@ == prepared.provenance
    &&& payload.run_id == prepared.lease.run_id
    &&& payload.attempt_id == prepared.lease.attempt_id
    &&& payload.lease_generation == prepared.lease.lease_generation
    &&& payload.budget_reservation_id == result.budget_reservation_id
}

/// Whether the checkpoint to append belongs to the payload and fences on
/// exactly the prepared sources, parent, owner, and scope.
pub open spec fn checkpoint_records(
    checkpoint: PreparedContextCheckpoint,
    prepared: PreparationModel,
    result: AiProviderCallResult,
) -> bool {
    &&& checkpoint.id == prepared.checkpoint_id
    &&& checkpoint.through_sequence == prepared.through_sequence
    &&& checkpoint.source_hash@ == prepared.source_hash
    &&& checkpoint.token_estimate == result.usage.output_tokens
    &&& checkpoint.provider_kind@ == provider_kind_text(result.provider_kind)
    &&& checkpoint.provider_model == result.provider_model
    &&& checkpoint.expected_parent == prepared.parent
    &&& checkpoint.sources@ == prepared.sources
    &&& checkpoint.maximum_checkpoints_per_session == prepared.bounds.checkpoints
    &&& checkpoint.expected_owner_principal_kind == prepared.session.owner_principal_kind
    &&& checkpoint.expected_owner_subject == prepared.session.owner_subject
    &&& checkpoint.expected_scope == prepared.scope
}

/// Turns a prepared compaction and its provider result into the checkpoint to
/// write. The result must be exactly the prepared one, a plain bounded
/// summary, and have storable positive usage.
pub fn persist_compaction(
    prepared: AiPreparedContextCompaction,
    result: &AiProviderCallResult,
) -> (outcome: Result<ContextCheckpointWrite, AiError>)
    requires
        prepared.wf(),
    ensures
        refusal(outcome) == if result_binds(prepared@, *result) && summary_accepted(
            result.events@,
            prepared@.bounds.summary_bytes,
        ) && result.usage.output_tokens <= i64::MAX {
            None
        } else {
            Some(ErrorModel::Conflict)
        },
        outcome matches Ok(write) ==> payload_records(write.payload, prepared@, *result)
            && checkpoint_records(write.checkpoint, prepared@, *result) && write.lease
            == prepared@.lease,
{
    match validate_result(&prepared, result) {
        Ok(()) => {},
        Err(error) => return Err(error),
    }
    let summary: String = match summary_text(
        &result.events,
        prepared.limits.maximum_summary_bytes(),
    ) {
        Ok(summary) => summary,
        Err(error) => return Err(error),
    };
    if result.usage.output_tokens > i64::MAX as u64 {
        return Err(AiError::Conflict);
    }
    let token_estimate: i64 = result.usage.output_tokens as i64;
    let parent: Option<StoredParent> = match &prepared.parent {
        Some(row) => Some(
            StoredParent {
                checkpoint_id: row.id,
                through_sequence: row.through_sequence,
                source_hash: row.source_hash.clone(),
            },
        ),
        None => None,
    };
    let payload = StoredCheckpointPayload {
        format_version: 1,
        checkpoint_id: prepared.checkpoint_id,
        session_id: prepared.lease.session_id,
        through_sequence: prepared.through_sequence,
        source_hash: prepared.source_hash.clone(),
        summary,
        parent,
        source_messages: prepared.provenance,
        run_id: prepared.lease.run_id,
        attempt_id: prepared.lease.attempt_id,
        lease_generation: prepared.lease.lease_generation,
        budget_reservation_id: result.budget_reservation_id,
    };
    let maximum: usize = prepared.limits.maximum_checkpoints_per_session();
    let checkpoint = PreparedContextCheckpoint {
        id: prepared.checkpoint_id,
        through_sequence: prepared.through_sequence,
        source_hash: prepared.source_hash,
        token_estimate,
        provider_kind: result.provider_kind.as_str().to_owned(),
        provider_model: result.provider_model.clone(),
        expected_parent: prepared.parent,
        sources: prepared.sources,
        maximum_checkpoints_per_session: maximum,
        expected_owner_principal_kind: prepared.session.owner_principal_kind,
        expected_owner_subject: prepared.session.owner_subject,
        expected_scope: prepared.scope,
    };
    Ok(ContextCheckpointWrite { payload, checkpoint, lease: prepared.lease })
}

/// The row that appending a checkpoint creates.
pub open spec fn appended_checkpoint(
    checkpoint: PreparedContextCheckpoint,
    session_id: Uuid,
) -> AiContextCheckpointRecord {
    AiContextCheckpointRecord {
        id: checkpoint.id,
        session_id,
        through_sequence: checkpoint.through_sequence,
        source_hash: checkpoint.source_hash,
        token_estimate: checkpoint.token_estimate,
        provider_kind: checkpoint.provider_kind,
        provider_model: checkpoint.provider_model,
        invalidated_at: None,
    }
}

/// What is persisted can be loaded: the payload of a compaction opens against
/// the row that was appended with it, under the same limits.
///
/// This holds for sources whose block identities are not nil, of a lease and
/// budget with non-nil identities and a positive generation.
pub proof fn persisted_checkpoint_opens(
    prepared: AiPreparedContextCompaction,
    result: AiProviderCallResult,
    write: ContextCheckpointWrite,
)
    requires
        prepared.wf(),
        payload_records(write.payload, prepared@, result),
        checkpoint_records(write.checkpoint, prepared@, result),
        summary_accepted(result.events@, prepared@.bounds.summary_bytes),
        prepared@.lease.lease_generation > 0,
        prepared@.lease.run_id != 0,
        prepared@.lease.attempt_id != 0,
        result.budget_reservation_id != 0,
        forall|i: int, k: int|
            0 <= i < prepared@.sources.len() && 0 <= k < prepared@.sources[i].blocks@.len()
                ==> (#[trigger] prepared@.sources[i].blocks@[k]).id != 0,
    ensures
        payload_opens(
            write.payload,
            appended_checkpoint(write.checkpoint, prepared@.lease.session_id),
            prepared@.bounds,
        ),
{
    let sources = prepared@.sources;
    let provenance = prepared@.provenance;
    let session_id = prepared@.session.id;
    let messages = write.payload.source_messages@;
    let start = first_sequence(write.payload.parent);
    assert(start == first_after(prepared@.parent));
    assert forall|i: int| 0 <= i < messages.len() implies provenance_item_valid(
        (#[trigger] messages[i])@,
        if start + i <= i64::MAX {
            start + i
        } else {
            i64::MAX as int
        },
    ) by {
        assert(source_gathered(sources[i], session_id, start + i));
        assert(provenance_records(provenance[i]@, sources[i]));
        let item = messages[i]@;
        assert forall|k: int| 0 <= k < item.block_ids.len() implies #[trigger] item.block_ids[k]
            != 0 by {
            assert(sources[i].blocks@[k].id != 0);
        }
    }
    let last = messages.len() - 1;
    assert(source_gathered(sources[last], session_id, start + last));
    assert(provenance_records(provenance[last]@, sources[last]));
    assert(provenance_valid(messages, write.payload.parent, write.payload.through_sequence));
}

/// Durable result of one exact context-checkpoint append.
#[derive(Debug, PartialEq, Eq)]
pub struct AiPersistedContextCheckpoint {
    checkpoint_id: Uuid,
    through_sequence: i64,
    source_hash: String,
    token_estimate: i64,
    lease: AiRunLease,
}

/// Values of [`AiPersistedContextCheckpoint`].
pub struct PersistedCheckpointModel {
    pub checkpoint_id: Uuid,
    pub through_sequence: i64,
    pub source_hash: Seq<char>,
    pub token_estimate: i64,
    pub lease: AiRunLease,
}

impl View for AiPersistedContextCheckpoint {
    type V = PersistedCheckpointModel;

    closed spec fn view(&self) -> PersistedCheckpointModel {
        PersistedCheckpointModel {
            checkpoint_id: self.checkpoint_id,
            through_sequence: self.through_sequence,
            source_hash: self.source_hash@,
            token_estimate: self.token_estimate,
            lease: self.lease,
        }
    }
}

impl AiPersistedContextCheckpoint {
    /// The result of appending the checkpoint under the renewed lease.
    pub fn appended(checkpoint: &PreparedContextCheckpoint, lease: AiRunLease) -> (persisted: Self)
        ensures
            persisted@.checkpoint_id == checkpoint.id,
            persisted@.through_sequence == checkpoint.through_sequence,
            persisted@.source_hash == checkpoint.source_hash@,
            persisted@.token_estimate == checkpoint.token_estimate,
            persisted@.lease == lease,
    {
        AiPersistedContextCheckpoint {
            checkpoint_id: checkpoint.id,
            through_sequence: checkpoint.through_sequence,
            source_hash: checkpoint.source_hash.clone(),
            token_estimate: checkpoint.token_estimate,
            lease,
        }
    }

    /// Context checkpoint identifier.
    pub fn checkpoint_id(&self) -> (id: Uuid)
        ensures
            id == self@.checkpoint_id,
    {
        self.checkpoint_id
    }

    /// Inclusive session sequence covered by the checkpoint.
    pub fn through_sequence(&self) -> (sequence: i64)
        ensures
            sequence == self@.through_sequence,
    {
        self.through_sequence
    }

    /// Exact chained source hash.
    pub fn source_hash(&self) -> (hash: &str)
        ensures
            hash@ == self@.source_hash,
    {
        self.source_hash.as_str()
    }

    /// Authoritative provider output-token observation.
    pub fn token_estimate(&self) -> (tokens: i64)
        ensures
            tokens == self@.token_estimate,
    {
        self.token_estimate
    }

    /// Renewed lease proof required by the next run operation.
    pub fn lease(&self) -> (lease: &AiRunLease)
        ensures
            *lease == self@.lease,
    {
        &self.lease
    }

    /// Consumes this result into its renewed lease.
    pub fn into_lease(self) -> (lease: AiRunLease)
        ensures
            lease == self@.lease,
    {
        self.lease
    }
}

/// Opened latest valid checkpoint for bounded context assembly.
///
/// The summary is sensitive; the value has no textual form beyond
/// [`AiLoadedContextCheckpoint::redacted`].
pub struct AiLoadedContextCheckpoint {
    checkpoint_id: Uuid,
    through_sequence: i64,
    source_hash: String,
    token_estimate: i64,
    provider_kind: String,
    provider_model: String,
    summary: String,
    parent_checkpoint_id: Option<Uuid>,
    source_messages: Vec<AiContextSourceMessage>,
    lease: AiRunLease,
}

/// Values of [`AiLoadedContextCheckpoint`].
pub struct LoadedCheckpointModel {
    pub checkpoint_id: Uuid,
    pub through_sequence: i64,
    pub source_hash: Seq<char>,
    pub token_estimate: i64,
    pub provider_kind: Seq<char>,
    pub provider_model: Seq<char>,
    pub summary: Seq<char>,
    pub parent_checkpoint_id: Option<Uuid>,
    pub source_messages: Seq<AiContextSourceMessage>,
    pub lease: AiRunLease,
}

impl View for AiLoadedContextCheckpoint {
    type V = LoadedCheckpointModel;

    closed spec fn view(&self) -> LoadedCheckpointModel {
        LoadedCheckpointModel {
            checkpoint_id: self.checkpoint_id,
            through_sequence: self.through_sequence,
            source_hash: self.source_hash@,
            token_estimate: self.token_estimate,
            provider_kind: self.provider_kind@,
            provider_model: self.provider_model@,
            summary: self.summary@,
            parent_checkpoint_id: self.parent_checkpoint_id,
            source_messages: self.source_messages@,
            lease: self.lease,
        }
    }
}

/// What may be shown of a loaded checkpoint: not its summary.
#[derive(Debug, PartialEq, Eq)]
pub struct RedactedContextCheckpoint {
    pub checkpoint_id: Uuid,
    pub through_sequence: i64,
    pub source_hash: String,
    pub token_estimate: i64,
    pub provider_kind: String,
    pub provider_model: String,
    pub parent_checkpoint_id: Option<Uuid>,
    pub source_message_count: usize,
}

impl AiLoadedContextCheckpoint {
    /// The latest valid checkpoint of an accepted chain, if there is one.
    pub fn opened(chain: AcceptedChain, lease: AiRunLease) -> (loaded: Option<Self>)
        requires
            chain.wf(),
        ensures
            loaded is None <==> latest_row(chain@.checkpoints) is None,
            loaded matches Some(loaded) ==> {
                let checkpoint = latest_row(chain@.checkpoints)->0;
                let payload = chain@.opened[0];
                &&& payload_opens(payload, checkpoint, chain@.bounds)
                &&& loaded@.checkpoint_id == checkpoint.id
                &&& loaded@.through_sequence == checkpoint.through_sequence
                &&& loaded@.source_hash == checkpoint.source_hash@
                &&& loaded@.token_estimate == checkpoint.token_estimate
                &&& loaded@.provider_kind == checkpoint.provider_kind@
                &&& loaded@.provider_model == checkpoint.provider_model@
                &&& loaded@.summary == payload.summary@
                &&& loaded@.parent_checkpoint_id == match payload.parent {
                    Some(parent) => Some(parent.checkpoint_id),
                    None => None,
                }
                &&& loaded@.source_messages == payload.source_messages@
                &&& loaded@.lease == lease
            },
    {
        let (checkpoint, payload) = match chain.into_latest() {
            Some(latest) => latest,
            None => return None,
        };
        let parent_checkpoint_id: Option<Uuid> = match &payload.parent {
            Some(parent) => Some(parent.checkpoint_id),
            None => None,
        };
        Some(
            AiLoadedContextCheckpoint {
                checkpoint_id: checkpoint.id,
                through_sequence: checkpoint.through_sequence,
                source_hash: checkpoint.source_hash,
                token_estimate: checkpoint.token_estimate,
                provider_kind: checkpoint.provider_kind,
                provider_model: checkpoint.provider_model,
                summary: payload.summary,
                parent_checkpoint_id,
                source_messages: payload.source_messages,
                lease,
            },
        )
    }

    /// Context checkpoint identifier.
    pub fn checkpoint_id(&self) -> (id: Uuid)
        ensures
            id == self@.checkpoint_id,
    {
        self.checkpoint_id
    }

    /// Inclusive covered session sequence.
    pub fn through_sequence(&self) -> (sequence: i64)
        ensures
            sequence == self@.through_sequence,
    {
        self.through_sequence
    }

    /// Exact chained source hash.
    pub fn source_hash(&self) -> (hash: &str)
        ensures
            hash@ == self@.source_hash,
    {
        self.source_hash.as_str()
    }

    /// Provider output-token observation stored with the summary.
    pub fn token_estimate(&self) -> (tokens: i64)
        ensures
            tokens == self@.token_estimate,
    {
        self.token_estimate
    }

    /// Provider family that produced the summary.
    pub fn provider_kind(&self) -> (kind: &str)
        ensures
            kind@ == self@.provider_kind,
    {
        self.provider_kind.as_str()
    }

    /// Provider model that produced the summary.
    pub fn provider_model(&self) -> (model: &str)
        ensures
            model@ == self@.provider_model,
    {
        self.provider_model.as_str()
    }

    /// Opened, untrusted summary text for trusted context assembly.
    pub fn summary(&self) -> (summary: &str)
        ensures
            summary@ == self@.summary,
    {
        self.summary.as_str()
    }

    /// Prior checkpoint in the chained compaction input, when present.
    pub fn parent_checkpoint_id(&self) -> (parent: Option<Uuid>)
        ensures
            parent == self@.parent_checkpoint_id,
    {
        self.parent_checkpoint_id
    }

    /// Direct message sources added by this compaction step.
    pub fn source_messages(&self) -> (messages: &Vec<AiContextSourceMessage>)
        ensures
            messages@ == self@.source_messages,
    {
        &self.source_messages
    }

    /// Renewed current lease returned by the load checkpoint.
    pub fn lease(&self) -> (lease: &AiRunLease)
        ensures
            *lease == self@.lease,
    {
        &self.lease
    }

    /// Consumes this result into its renewed lease.
    pub fn into_lease(self) -> (lease: AiRunLease)
        ensures
            lease == self@.lease,
    {
        self.lease
    }

    /// What may be shown of the checkpoint.
    pub fn redacted(&self) -> (view: RedactedContextCheckpoint)
        ensures
            view.checkpoint_id == self@.checkpoint_id,
            view.through_sequence == self@.through_sequence,
            view.source_hash@ == self@.source_hash,
            view.token_estimate == self@.token_estimate,
            view.provider_kind@ == self@.provider_kind,
            view.provider_model@ == self@.provider_model,
            view.parent_checkpoint_id == self@.parent_checkpoint_id,
            view.source_message_count == self@.source_messages.len(),
    {
        RedactedContextCheckpoint {
            checkpoint_id: self.checkpoint_id,
            through_sequence: self.through_sequence,
            source_hash: self.source_hash.clone(),
            token_estimate: self.token_estimate,
            provider_kind: self.provider_kind.clone(),
            provider_model: self.provider_model.clone(),
            parent_checkpoint_id: self.parent_checkpoint_id,
            source_message_count: self.source_messages.len(),
        }
    }
}

/// A compaction is assembled exactly where a running lease asks for it in its
/// own session, the boundary can be selected, every message behind the latest
/// checkpoint up to the boundary was gathered, and all of it fits its bounds.
pub proof fn compactions_cover_their_whole_boundary(
    lease: AiRunLease,
    authority: AuthorityModel,
    order: CompactionOrder,
    gathered: CompactionSources,
    chain: ChainModel,
    encoded: Seq<u8>,
)
    ensures
        assembly_refusal(lease, authority, order, gathered, chain, encoded) is None <==> {
            let start = match latest_row(chain.checkpoints) {
                Some(row) => row.through_sequence + 1,
                None => 1,
            };
            &&& !blank(order.model@) && byte_len(order.model@) <= 200
            &&& order.through_sequence >= 1
            &&& 1 <= order.maximum_output_tokens <= chain.bounds.summary_tokens
            &&& lease.state is Running
            &&& authority.session.id == lease.session_id
            &&& session_bound(authority.session, lease, authority.scope@)
            &&& boundary_refusal(
                authority.session,
                chain.checkpoints,
                order.through_sequence,
                chain.bounds,
            ) is None
            &&& gathered.session_id == authority.session.id
            &&& gathered.start_sequence == start
            &&& start + gathered.sources@.len() == order.through_sequence + 1
            &&& gathered.total_blocks <= chain.bounds.source_blocks
            &&& encoded.len() <= chain.bounds.source_bytes
        },
{
}

/// What a compaction hands to its model: the instruction, the encoded prompt,
/// the ordered model and token bound, and nothing that lets it call tools or
/// continue another response.
pub proof fn compaction_requests_hold_prompt_and_instruction_alone(
    request: ModelRequest,
    model: Seq<char>,
    prompt: Seq<u8>,
    maximum_output_tokens: u64,
)
    requires
        requests_compaction(request, model, prompt, maximum_output_tokens),
    ensures
        request.model@ == model,
        request.instructions@.len() == 1,
        request.instructions@[0]@ == COMPACTION_INSTRUCTION@,
        request.input@.len() == 1,
        request.input@[0] matches ModelInputBlock::Json { value } && value@ == prompt,
        request.continuation is None,
        request.continuation_mode is ProviderRetained,
        request.tools@.len() == 0,
        request.builtin_tools@.len() == 0,
        request.maximum_builtin_tool_calls is None,
        request.output_schema is None,
        request.maximum_output_tokens is Some && request.maximum_output_tokens->0
            == maximum_output_tokens,
{
}

/// A prepared compaction is of every message between its parent and its
/// boundary: message by message in sequence, complete, prompted, recorded, and
/// with the recent messages left alone.
pub proof fn prepared_compactions_hold_every_message(prepared: PreparationModel, i: int)
    requires
        compaction_complete(prepared),
        0 <= i < prepared.sources.len(),
    ensures
        ({
            let start = match prepared.parent {
                Some(row) => row.through_sequence + 1,
                None => 1,
            };
            let message = prepared.sources[i].message;
            &&& prepared.sources.len() == prepared.through_sequence - start + 1
            &&& message.sequence == start + i
            &&& message.session_id == prepared.session.id
            &&& message.completion_state@ == "complete"@
            &&& message.content_purged_at is None
            &&& prepared.sources[i].blocks@.len() == message.block_count
            &&& prepared.provenance[i]@.message_id == message.id
            &&& prepared.provenance[i]@.sequence == message.sequence
            &&& prepared.provenance[i]@.role == message.message_role@
            &&& prepared.provenance[i]@.block_ids.len() == message.block_count
            &&& prepared.prompt.messages.len() == prepared.sources.len()
            &&& prepared.prompt.messages[i].message_id == message.id
            &&& prepared.prompt.messages[i].sequence == message.sequence
            &&& prepared.prompt.messages[i].role == message.message_role@
            &&& prepared.prompt.messages[i].blocks.len() == message.block_count
            &&& prepared.through_sequence + prepared.bounds.recent_messages
                <= prepared.session.message_head
        }),
        prepared.lease.state is Running,
        prepared.session.id == prepared.lease.session_id,
        prepared.estimated_source_bytes == input_value(prepared.request).len(),
        prepared.estimated_source_tokens == input_value(prepared.request).len(),
{
    assert(source_gathered(
        prepared.sources[i],
        prepared.session.id,
        first_after(prepared.parent) + i,
    ));
    assert(provenance_records(prepared.provenance[i]@, prepared.sources[i]));
    assert(message_prompted(prepared.prompt.messages[i], prepared.sources[i]));
}

/// A provider result is a compaction's own exactly where it answers the very
/// request under the very lease, used no tools and some output, and disclosed
/// exactly the prepared sources in the prepared scope, for compaction.
pub proof fn results_answer_the_prepared_request(
    prepared: PreparationModel,
    result: AiProviderCallResult,
)
    ensures
        result_binds(prepared, result) <==> {
            let manifest = result.model_inference_manifest;
            &&& result.session_id == prepared.lease.session_id
            &&& result.run_id == prepared.lease.run_id
            &&& result.attempt_id == prepared.lease.attempt_id
            &&& result.lease_generation == prepared.lease.lease_generation
            &&& result.provider_kind == prepared.provider_kind
            &&& result.provider_model@ == prepared.request.model@
            &&& requests_equal(result.request, prepared.request)
            &&& result.tool_calls@.len() == 0
            &&& result.usage.runs == 1 && result.usage.output_tokens >= 1
            &&& manifest.capability is ModelInference
            &&& manifest.purpose@ == "context_compaction"@
            &&& manifest.provider_kind@ == provider_kind_text(prepared.provider_kind)
            &&& manifest.model@ == prepared.request.model@
            &&& manifest.scope@ == prepared.scope@
            &&& manifest.session_id is Some && manifest.session_id->0 == prepared.lease.session_id
            &&& manifest.run_id is Some && manifest.run_id->0 == prepared.lease.run_id
            &&& manifest.attachment_count == 0
            &&& prepared.estimated_source_bytes <= manifest.estimated_bytes
            &&& prepared.estimated_source_tokens <= manifest.estimated_tokens
            &&& source_models(manifest.sources@).to_multiset() == source_models(
                prepared.egress_sources,
            ).to_multiset()
        },
{
}

/// A summary is the text that the model wrote, in order and in full: whatever
/// is no text adds nothing, and a text adds itself.
pub proof fn summaries_join_all_texts(events: Seq<ProviderEvent>, event: ProviderEvent)
    ensures
        delta_text(Seq::empty(), 0) == Seq::<char>::empty(),
        delta_text(events.push(event), events.len() + 1) == delta_text(events, events.len()) + (
        match event {
            ProviderEvent::TextDelta { text } => text@,
            _ => Seq::empty(),
        }),
{
    lemma_delta_of_prefix(events, event, events.len());
    assert(delta_text(events, events.len()) + Seq::<char>::empty() =~= delta_text(
        events,
        events.len(),
    ));
}

proof fn lemma_delta_of_prefix(events: Seq<ProviderEvent>, event: ProviderEvent, count: nat)
    requires
        count <= events.len(),
    ensures
        delta_text(events.push(event), count) == delta_text(events, count),
    decreases count,
{
    if count > 0 {
        lemma_delta_of_prefix(events, event, (count - 1) as nat);
    }
}

/// A summary is accepted exactly where nothing but text, start, usage, and
/// completion was seen, and the text is visible and within its bound.
pub proof fn summaries_are_plain_visible_text(events: Seq<ProviderEvent>, maximum_bytes: nat)
    ensures
        summary_accepted(events, maximum_bytes) <==> {
            &&& forall|i: int|
                0 <= i < events.len() ==> (#[trigger] events[i] is TextDelta || events[i]
                    is ResponseStarted || events[i] is Usage || events[i] is ResponseCompleted)
            &&& !blank(delta_text(events, events.len()))
            &&& byte_len(delta_text(events, events.len())) <= maximum_bytes
        },
{
    assert(summary_accepted(events, maximum_bytes) ==> forall|i: int|
        0 <= i < events.len() ==> summary_event(#[trigger] events[i]));
}

/// What is persisted is the compaction that was prepared: its identity,
/// boundary, digest, parent, provenance, and fence, the model's text, and the
/// budget that paid for it.
pub proof fn persisted_checkpoints_record_the_compaction(
    payload: StoredCheckpointPayload,
    checkpoint: PreparedContextCheckpoint,
    prepared: PreparationModel,
    result: AiProviderCallResult,
)
    requires
        payload_records(payload, prepared, result),
        checkpoint_records(checkpoint, prepared, result),
    ensures
        payload.format_version == 1,
        payload.checkpoint_id == prepared.checkpoint_id,
        checkpoint.id == prepared.checkpoint_id,
        payload.session_id == prepared.lease.session_id,
        payload.through_sequence == prepared.through_sequence,
        checkpoint.through_sequence == prepared.through_sequence,
        payload.source_hash@ == prepared.source_hash,
        checkpoint.source_hash@ == prepared.source_hash,
        payload.summary@ == delta_text(result.events@, result.events@.len()),
        payload.parent is Some <==> prepared.parent is Some,
        payload.parent matches Some(parent) ==> parent.checkpoint_id == prepared.parent->0.id
            && parent.through_sequence == prepared.parent->0.through_sequence
            && parent.source_hash@ == prepared.parent->0.source_hash@,
        checkpoint.expected_parent == prepared.parent,
        payload.source_messages@ == prepared.provenance,
        checkpoint.sources@ == prepared.sources,
        payload.run_id == prepared.lease.run_id,
        payload.attempt_id == prepared.lease.attempt_id,
        payload.lease_generation == prepared.lease.lease_generation,
        payload.budget_reservation_id == result.budget_reservation_id,
        checkpoint.token_estimate == result.usage.output_tokens,
        checkpoint.provider_kind@ == provider_kind_text(result.provider_kind),
        checkpoint.provider_model@ == result.provider_model@,
        checkpoint.maximum_checkpoints_per_session == prepared.bounds.checkpoints,
        checkpoint.expected_owner_principal_kind@ == prepared.session.owner_principal_kind@,
        checkpoint.expected_owner_subject@ == prepared.session.owner_subject@,
        checkpoint.expected_scope@ == prepared.scope@,
{
}

/// An assembled compaction is the ordered one, of the authorized session and
/// scope, behind the latest checkpoint of the chain.
pub proof fn assembled_compactions_are_as_ordered(
    prepared: PreparationModel,
    lease: AiRunLease,
    checkpoint_id: Uuid,
    authority: AuthorityModel,
    order: CompactionOrder,
    gathered: CompactionSources,
    chain: ChainModel,
)
    requires
        assembled_from(prepared, lease, checkpoint_id, authority, order, gathered, chain),
    ensures
        prepared.lease == lease,
        prepared.checkpoint_id == checkpoint_id,
        prepared.scope@ == authority.scope@,
        prepared.session == authority.session,
        prepared.provider_kind == order.provider_kind,
        prepared.request.model@ == order.model@,
        prepared.request.maximum_output_tokens == Some(order.maximum_output_tokens),
        prepared.through_sequence == order.through_sequence,
        prepared.parent == latest_row(chain.checkpoints),
        prepared.sources == gathered.sources@,
        prepared.provenance == gathered.provenance@,
        prepared.prompt.messages == message_models(gathered.messages@),
        prepared.prompt.through_sequence == order.through_sequence,
        prepared.prompt.session_id == gathered.session_id,
        prepared.prompt.parent is Some ==> prepared.prompt.parent->0.summary
            == chain.opened[0].summary@,
{
}

/// A compaction is refused for what is wrong: an unusable order is invalid
/// input, a lease that is not running is a conflict, another's session is
/// forbidden, an incomplete or oversized gathering is a conflict.
pub proof fn refused_compactions_say_why(
    lease: AiRunLease,
    authority: AuthorityModel,
    order: CompactionOrder,
    gathered: CompactionSources,
    chain: ChainModel,
    encoded: Seq<u8>,
    code: OrmErrorCode,
    message: Seq<char>,
)
    ensures
        ({
            let refusal = assembly_refusal(lease, authority, order, gathered, chain, encoded);
            let boundary = boundary_refusal(
                authority.session,
                chain.checkpoints,
                order.through_sequence,
                chain.bounds,
            );
            let asked = compaction_request_valid(
                order.model@,
                order.through_sequence,
                order.maximum_output_tokens,
                chain.bounds,
            );
            let bound = session_bound(authority.session, lease, authority.scope@);
            &&& refusal == Some(ErrorModel::InvalidInput("invalid context-compaction request"@))
                <==> !asked
            &&& asked && !(lease.state is Running) ==> refusal == Some(ErrorModel::Conflict)
            &&& refusal == Some(ErrorModel::Forbidden) <==> asked && lease.state is Running
                && !bound
            &&& asked && lease.state is Running && bound && boundary is Some ==> refusal == boundary
            &&& asked && lease.state is Running && bound && boundary is None && refusal is Some
                ==> refusal == Some(ErrorModel::Conflict)
        }),
        mapped_compaction_orm(code, message) is PersistenceFailed <==> code is ConstraintViolation
            || code is ServiceUnavailable || code is InternalError || code
            is AuthorizationMisconfigured,
        mapped_compaction_orm(code, message) is Conflict <==> code is Conflict,
        mapped_compaction_orm(code, message) is NotFound <==> code is NotFound,
        mapped_compaction_orm(code, message) is Forbidden <==> code is Unauthenticated || code
            is Forbidden,
        mapped_compaction_orm(code, message) is InvalidInput <==> code is InvalidInput || code
            is CursorInvalid || code is PageLimitExceeded,
{
}

/// What a compaction discloses is in the order of sources: as many as it has
/// blocks and parents, each of them, and nothing else.
pub proof fn disclosed_sources_are_in_order(prepared: PreparationModel, source: SourceModel)
    requires
        discloses_sources(prepared),
    ensures
        ({
            let disclosed = source_models(prepared.egress_sources);
            let expected = compaction_sources(prepared.sources, prepared.parent);
            &&& sorted_by(disclosed, source_order())
            &&& disclosed.len() == expected.len()
            &&& disclosed.contains(source) <==> expected.contains(source)
            &&& prepared.parent matches Some(row) ==> disclosed.contains(parent_source(row))
        }),
{
    let disclosed = source_models(prepared.egress_sources);
    let expected = compaction_sources(prepared.sources, prepared.parent);
    disclosed.to_multiset_ensures();
    expected.to_multiset_ensures();
    assert(disclosed.to_multiset().count(source) == expected.to_multiset().count(source));
    if prepared.parent is Some {
        let parent = parent_source(prepared.parent->0);
        assert(expected.last() == parent);
        assert(expected.contains(parent));
        assert(disclosed.to_multiset().count(parent) == expected.to_multiset().count(parent));
        assert(disclosed.contains(parent));
    }
}

/// An assembled compaction keeps the bounds of its chain, and its prompt says
/// the format that it is written in.
pub proof fn assembled_compactions_keep_their_bounds(
    prepared: PreparationModel,
    lease: AiRunLease,
    checkpoint_id: Uuid,
    authority: AuthorityModel,
    order: CompactionOrder,
    gathered: CompactionSources,
    chain: ChainModel,
)
    requires
        assembled_from(prepared, lease, checkpoint_id, authority, order, gathered, chain),
    ensures
        prepared.bounds == chain.bounds,
        prepared.prompt.format_version == 1,
        composes_prompt(prepared) ==> prepared.prompt.session_id == prepared.session.id,
{
}

} // verus!
