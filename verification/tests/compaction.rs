//! Context compaction driven over a small in-memory store.

use graphql_orm_ai::access::{
    AiContentProtectionMode, AiContentProtectionPolicy, AiRunLease, AiRunState,
};
use graphql_orm_ai::authority::{AuthorityCheck, ContentAuthority};
use graphql_orm_ai::budget::amounts::AiBudgetAmounts;
use graphql_orm_ai::checkpoints::continuation::ModelInputBlock;
use graphql_orm_ai::clock::{Duration, UtcTime};
use graphql_orm_ai::compaction::append::admit_append;
use graphql_orm_ai::compaction::chain::{
    AcceptedChain, AiContextCheckpointRecord, AiContextSourceMessage, ChainWalk,
    StoredCheckpointPayload, StoredParent, find_latest_valid, valid_hash, valid_provenance,
    validate_checkpoint_record, validate_opened_checkpoint,
};
use graphql_orm_ai::compaction::limits::{
    AiContextCompactionLimits, admit_compaction_request, limit_with_lookahead,
};
use graphql_orm_ai::compaction::preparation::{
    COMPACTION_INSTRUCTION, CompactionBoundary, CompactionColumn, CompactionSources,
    PreparedContextCheckpointSource, admit_blocks, content_context, context_source_hash,
    require_every_message, require_running, seal_prompt, select_boundary, validate_checkpoints,
    validate_source_message,
};
use graphql_orm_ai::compaction::prompt::{
    CompactionPrompt, OpenedBlock, PromptBlock, PromptMessage, PromptParent, compaction_prompt,
    prompt_text,
};
use graphql_orm_ai::compaction::result::{
    AiLoadedContextCheckpoint, AiPersistedContextCheckpoint, AiPreparedContextCompaction,
    CompactionOrder, ComposedCompaction, compaction_request, map_compaction_orm,
    persist_compaction, summary_text, validate_result,
};
use graphql_orm_ai::compaction::sources::sort_sources;
use graphql_orm_ai::digest::Uuid;
use graphql_orm_ai::egress::{
    AiDataSourceRef, AiDestinationTrust, AiEgressCapability, AiEgressManifest, AiSourceTrust,
};
use graphql_orm_ai::error::{AiError, OrmErrorCode};
use graphql_orm_ai::principal::{
    AiScope, AuthPrincipal, PrincipalReference, PrincipalReferenceKind, ResolvedPrincipal,
    session_scope,
};
use graphql_orm_ai::provider::{DataClassification, ProviderKind};
use graphql_orm_ai::provider_result::{
    AiProviderCallResult, ModelContinuationMode, ModelRequest, ProviderEvent, same_request,
};
use graphql_orm_ai::records::{AiMessageBlockRecord, AiMessageRecord, AiSessionRecord};

const SESSION_ID: Uuid = 0x5e55;
const NOW: i64 = 1_700_000_000;

fn at(second: i64) -> UtcTime {
    UtcTime::from_unix_timestamp(second).expect("test instants are calendar instants")
}

fn message_id(sequence: i64) -> Uuid {
    0x1000 + sequence as Uuid
}

fn block_id(sequence: i64) -> Uuid {
    0x2000 + sequence as Uuid
}

fn scope() -> AiScope {
    AiScope::new("tenant", "context-tenant").with_tenant_id("context-tenant")
}

fn session() -> AiSessionRecord {
    AiSessionRecord {
        id: SESSION_ID,
        owner_principal_kind: "user".to_owned(),
        owner_subject: "context-user".to_owned(),
        tenant_id: Some("context-tenant".to_owned()),
        scope_kind: "tenant".to_owned(),
        scope_id: "context-tenant".to_owned(),
        state: "active".to_owned(),
        stream_head: 0,
        message_head: 6,
        deleted_at: None,
        row_version: 1,
    }
}

fn reference() -> PrincipalReference {
    PrincipalReference {
        kind: PrincipalReferenceKind::UserSession,
        subject: "context-user".to_owned(),
        tenant_id: Some("context-tenant".to_owned()),
        expires_at: None,
        encoding: "{\"subject\":\"context-user\"}".to_owned(),
    }
}

fn lease() -> AiRunLease {
    AiRunLease {
        session_id: SESSION_ID,
        run_id: 0x3001,
        attempt_id: 0x3002,
        lease_generation: 1,
        state: AiRunState::Running,
        principal_reference: reference(),
        latest_checkpoint_id: None,
    }
}

fn message(sequence: i64) -> AiMessageRecord {
    let user = sequence % 2 == 1;
    AiMessageRecord {
        id: message_id(sequence),
        session_id: SESSION_ID,
        sequence,
        message_role: if user { "user" } else { "assistant" }.to_owned(),
        run_id: None,
        provider_kind: (!user).then_some("open_ai".to_owned()),
        provider_model: (!user).then_some("test-model".to_owned()),
        completion_state: "complete".to_owned(),
        finalized_at: Some(NOW),
        content_purged_at: None,
        has_protected_preview: true,
        block_count: 1,
    }
}

fn block(sequence: i64) -> AiMessageBlockRecord {
    AiMessageBlockRecord {
        id: block_id(sequence),
        message_id: message_id(sequence),
        block_index: 0,
        block_kind: "text".to_owned(),
        byte_count: 16,
        line_count: 1,
    }
}

fn limits() -> AiContextCompactionLimits {
    AiContextCompactionLimits::new(4, 8, 64 * 1024, 16 * 1024, 1_024, 8, 2, Duration::seconds(300))
        .expect("compaction limits should validate")
}

/// A checkpoint row with its opened content.
struct StoredCheckpoint {
    row: AiContextCheckpointRecord,
    payload: StoredCheckpointPayload,
}

struct Fixture {
    checkpoints: Vec<StoredCheckpoint>,
    deleted_blocks: Vec<Uuid>,
    deleted_messages: Vec<i64>,
    next_checkpoint_id: Uuid,
    access_granted: bool,
    opened_blocks: usize,
}

fn copy_payload(payload: &StoredCheckpointPayload) -> StoredCheckpointPayload {
    StoredCheckpointPayload {
        format_version: payload.format_version,
        checkpoint_id: payload.checkpoint_id,
        session_id: payload.session_id,
        through_sequence: payload.through_sequence,
        source_hash: payload.source_hash.clone(),
        summary: payload.summary.clone(),
        parent: payload.parent.as_ref().map(|parent| StoredParent {
            checkpoint_id: parent.checkpoint_id,
            through_sequence: parent.through_sequence,
            source_hash: parent.source_hash.clone(),
        }),
        source_messages: payload
            .source_messages
            .iter()
            .map(|source| {
                AiContextSourceMessage::new(
                    source.message_id(),
                    source.sequence(),
                    source.role().to_owned(),
                    source.block_ids().clone(),
                )
            })
            .collect(),
        run_id: payload.run_id,
        attempt_id: payload.attempt_id,
        lease_generation: payload.lease_generation,
        budget_reservation_id: payload.budget_reservation_id,
    }
}

fn copy_sources(sources: &[AiDataSourceRef]) -> Vec<AiDataSourceRef> {
    sources
        .iter()
        .map(|source| AiDataSourceRef {
            kind: source.kind.clone(),
            reference: source.reference.clone(),
            classification: source.classification,
            trust: source.trust,
        })
        .collect()
}

impl Fixture {
    fn new() -> Fixture {
        Fixture {
            checkpoints: Vec::new(),
            deleted_blocks: Vec::new(),
            deleted_messages: Vec::new(),
            next_checkpoint_id: 0x4001,
            access_granted: true,
            opened_blocks: 0,
        }
    }

    /// Checkpoint rows, latest first.
    fn rows(&self) -> Vec<AiContextCheckpointRecord> {
        let mut rows: Vec<AiContextCheckpointRecord> =
            self.checkpoints.iter().map(|stored| stored.row.clone()).collect();
        rows.sort_by_key(|row| -row.through_sequence);
        rows
    }

    fn payload_of(&self, id: Uuid) -> StoredCheckpointPayload {
        let stored = self.checkpoints.iter().find(|stored| stored.row.id == id);
        copy_payload(&stored.expect("every row has its content").payload)
    }

    /// Stored messages of a boundary, in their order.
    fn messages(&self, boundary: &CompactionBoundary) -> Vec<AiMessageRecord> {
        (boundary.start_sequence..=boundary.through_sequence)
            .map(i64::from)
            .filter(|sequence| !self.deleted_messages.contains(sequence))
            .map(message)
            .collect()
    }

    fn blocks(&self, sequence: i64) -> Vec<AiMessageBlockRecord> {
        let row = block(sequence);
        if self.deleted_blocks.contains(&row.id) { Vec::new() } else { vec![row] }
    }

    fn authorize(&self, lease: &AiRunLease) -> Result<ContentAuthority, AiError> {
        let session = session();
        let scope = session_scope(&session);
        let resolved = ResolvedPrincipal {
            reference: reference(),
            principal: AuthPrincipal::User { subject: "context-user".to_owned() },
            resolved_at: at(NOW),
        };
        let check = AuthorityCheck::begin(&Some(session), lease, &scope)?;
        limits()
            .admit_principal(check, &resolved, at(NOW))?
            .admit_access(self.access_granted, self.access_granted)?
            .admit_policy(AiContentProtectionPolicy {
                scope,
                mode: AiContentProtectionMode::DatabaseManaged,
                key_policy_reference: None,
                version: 1,
                ready: true,
            })
    }

    fn prepare(
        &mut self,
        lease: &AiRunLease,
        model: &str,
        through_sequence: i64,
        maximum_output_tokens: u64,
    ) -> Result<AiPreparedContextCompaction, AiError> {
        let limits = limits();
        admit_compaction_request(model, through_sequence, maximum_output_tokens, limits)?;
        require_running(lease)?;
        let session = session();
        let authority = self.authorize(lease)?;
        let rows = self.rows();
        let boundary = select_boundary(&session, &rows, through_sequence, limits)?;
        let messages = self.messages(&boundary);
        require_every_message(&boundary, messages.len())?;
        let chain = self.walk(rows)?;
        let gathered = self.gather(messages, boundary, &authority)?;
        let checkpoint_id = self.next_checkpoint_id;
        self.next_checkpoint_id += 1;
        ComposedCompaction::compose(
            lease.clone(),
            checkpoint_id,
            &authority,
            order(model, through_sequence, maximum_output_tokens),
            gathered,
            chain,
        )?
        .accept_request(true)
    }

    /// Gathers the messages with their opened blocks.
    fn gather(
        &mut self,
        messages: Vec<AiMessageRecord>,
        boundary: CompactionBoundary,
        authority: &ContentAuthority,
    ) -> Result<CompactionSources, AiError> {
        let mut gathered = CompactionSources::new(SESSION_ID, boundary);
        for row in messages {
            gathered.admit_message(&row, limits())?;
            let blocks = self.blocks(row.sequence);
            admit_blocks(&row, &blocks)?;
            let mut opened = Vec::new();
            for block in blocks {
                let place = content_context(CompactionColumn::BlockContent, block.id, authority);
                assert_eq!(place.field(), "protected_content");
                self.opened_blocks += 1;
                opened.push(OpenedBlock::open(block, content(row.sequence).into_bytes())?);
            }
            gathered.gather(row, opened, limits())?;
        }
        Ok(gathered)
    }

    fn persist(
        &mut self,
        prepared: AiPreparedContextCompaction,
        result: &AiProviderCallResult,
    ) -> Result<AiPersistedContextCheckpoint, AiError> {
        let write = persist_compaction(prepared, result)?;
        self.authorize(&write.lease)?;
        let current: Vec<PreparedContextCheckpointSource> = write
            .checkpoint
            .sources
            .iter()
            .map(|source| PreparedContextCheckpointSource {
                message: message(source.message.sequence),
                blocks: self.blocks(source.message.sequence),
            })
            .collect();
        let rows = self.rows();
        let parent = find_latest_valid(&rows).map(|position| &rows[position]);
        admit_append(&write.checkpoint, parent, &current, true)?;
        let persisted =
            AiPersistedContextCheckpoint::appended(&write.checkpoint, write.lease.clone());
        self.checkpoints.push(StoredCheckpoint {
            row: AiContextCheckpointRecord {
                id: write.checkpoint.id,
                session_id: write.lease.session_id,
                through_sequence: write.checkpoint.through_sequence,
                source_hash: write.checkpoint.source_hash,
                token_estimate: write.checkpoint.token_estimate,
                provider_kind: write.checkpoint.provider_kind,
                provider_model: write.checkpoint.provider_model,
                invalidated_at: None,
            },
            payload: write.payload,
        });
        Ok(persisted)
    }

    /// Opens the whole chain.
    fn walk(&self, rows: Vec<AiContextCheckpointRecord>) -> Result<AcceptedChain, AiError> {
        let mut walk = ChainWalk::begin(rows, limits())?;
        while let Some((_, id)) = walk.next_row() {
            walk.advance(self.payload_of(id))?;
        }
        walk.finish()
    }

    fn load_latest(
        &self,
        lease: &AiRunLease,
    ) -> Result<Option<AiLoadedContextCheckpoint>, AiError> {
        let session = session();
        self.authorize(lease)?;
        let rows = self.rows();
        validate_checkpoints(&rows, &session, limits())?;
        let chain = self.walk(rows)?;
        Ok(AiLoadedContextCheckpoint::opened(chain, lease.clone()))
    }
}

fn order(model: &str, through_sequence: i64, maximum_output_tokens: u64) -> CompactionOrder {
    CompactionOrder {
        provider_kind: ProviderKind::OpenAi,
        model: model.to_owned(),
        through_sequence,
        maximum_output_tokens,
    }
}

/// What the block of a message holds.
fn content(sequence: i64) -> String {
    format!("{{\"text\":\"source message {sequence}\"}}")
}

fn opened(row: AiMessageBlockRecord, text: &str) -> OpenedBlock {
    OpenedBlock::open(row, text.as_bytes().to_vec()).expect("a JSON text opens")
}

/// The value that a request's input consists of.
fn input_text(request: &ModelRequest) -> String {
    match request.input.as_slice() {
        [ModelInputBlock::Json { value }] => {
            String::from_utf8(value.clone()).expect("the input is text")
        }
        other => panic!("unexpected input: {other:?}"),
    }
}

fn copy_request(request: &ModelRequest) -> ModelRequest {
    ModelRequest {
        model: request.model.clone(),
        instructions: request.instructions.clone(),
        input: vec![ModelInputBlock::Json { value: input_text(request).into_bytes() }],
        continuation: request.continuation.clone(),
        continuation_mode: request.continuation_mode,
        tools: request.tools.clone(),
        builtin_tools: request.builtin_tools.clone(),
        maximum_builtin_tool_calls: request.maximum_builtin_tool_calls,
        output_schema: request.output_schema.clone(),
        maximum_output_tokens: request.maximum_output_tokens,
    }
}

fn manifest(prepared: &AiPreparedContextCompaction) -> AiEgressManifest {
    AiEgressManifest {
        provider_profile_id: "context-test-profile".to_owned(),
        provider_kind: ProviderKind::OpenAi.as_str().to_owned(),
        model: prepared.model_request().model.clone(),
        destination: "context-test-provider".to_owned(),
        destination_trust: AiDestinationTrust::ManagedProvider,
        capability: AiEgressCapability::ModelInference,
        scope: scope(),
        session_id: Some(prepared.lease().session_id),
        run_id: Some(prepared.lease().run_id),
        sources: copy_sources(prepared.egress_sources()),
        estimated_bytes: prepared.estimated_source_bytes(),
        estimated_tokens: prepared.estimated_source_tokens(),
        attachment_count: 0,
        purpose: "context_compaction".to_owned(),
        retention: "provider_policy".to_owned(),
        residency: None,
        policy_version: "context-egress-v1".to_owned(),
        consent_reference: None,
        maximum_classification: DataClassification::Restricted,
        stable_hash: "manifest-hash".to_owned(),
    }
}

fn provider_result(
    prepared: &AiPreparedContextCompaction,
    manifest: AiEgressManifest,
    summary: &str,
) -> AiProviderCallResult {
    let lease = prepared.lease();
    AiProviderCallResult {
        session_id: lease.session_id,
        run_id: lease.run_id,
        attempt_id: lease.attempt_id,
        lease_generation: lease.lease_generation,
        provider_kind: ProviderKind::OpenAi,
        provider_model: prepared.model_request().model.clone(),
        provider_response_id: Some("response".to_owned()),
        budget_reservation_id: 0x6001,
        tool_calls: Vec::new(),
        usage: AiBudgetAmounts {
            input_tokens: 10,
            output_tokens: 20,
            tool_units: 0,
            image_units: 0,
            cost_microunits: 0,
            runs: 1,
        },
        events: vec![
            ProviderEvent::ResponseStarted,
            ProviderEvent::TextDelta { text: summary.to_owned() },
            ProviderEvent::Usage,
            ProviderEvent::ResponseCompleted,
        ],
        request: copy_request(prepared.model_request()),
        model_inference_manifest: manifest,
    }
}

#[test]
fn exact_compaction_chains_and_loads_without_debug_disclosure() {
    let mut fixture = Fixture::new();
    let prepared = fixture
        .prepare(&lease(), "test-model", 2, 128)
        .expect("first compaction should prepare");
    let prepared_debug = format!("{:?}", prepared.redacted());
    assert!(!prepared_debug.contains("source message"));
    let result =
        provider_result(&prepared, manifest(&prepared), "Summary of messages one and two.");
    let persisted =
        fixture.persist(prepared, &result).expect("first checkpoint should persist");
    assert_eq!(persisted.through_sequence(), 2);
    assert_eq!(persisted.token_estimate(), 20);
    let loaded = fixture
        .load_latest(persisted.lease())
        .expect("checkpoint should load")
        .expect("checkpoint should exist");
    assert_eq!(loaded.summary(), "Summary of messages one and two.");
    assert_eq!(loaded.source_messages().len(), 2);
    assert!(loaded.parent_checkpoint_id().is_none());
    assert!(!format!("{:?}", loaded.redacted()).contains("Summary of messages"));

    let first_checkpoint_id = loaded.checkpoint_id();
    let prepared = fixture
        .prepare(loaded.lease(), "test-model", 4, 128)
        .expect("chained compaction should prepare");
    assert_eq!(prepared.egress_sources().len(), 3);
    let result = provider_result(&prepared, manifest(&prepared), "Summary through message four.");
    let persisted =
        fixture.persist(prepared, &result).expect("chained checkpoint should persist");
    let loaded = fixture
        .load_latest(persisted.lease())
        .expect("latest checkpoint should load")
        .expect("latest checkpoint should exist");
    assert_eq!(loaded.through_sequence(), 4);
    assert_eq!(loaded.parent_checkpoint_id(), Some(first_checkpoint_id));
    assert_eq!(loaded.source_messages().len(), 2);

    let before = fixture.checkpoints.len();
    fixture.checkpoints.retain(|stored| stored.row.id != first_checkpoint_id);
    assert_eq!(fixture.checkpoints.len() + 1, before, "parent checkpoint should delete");
    assert!(matches!(fixture.load_latest(loaded.lease()), Err(AiError::PersistenceFailed)));
}

#[test]
fn changed_sources_and_inexact_egress_fail_closed() {
    let mut fixture = Fixture::new();
    let prepared =
        fixture.prepare(&lease(), "test-model", 2, 128).expect("compaction should prepare");
    let mut wrong_manifest = manifest(&prepared);
    wrong_manifest.sources.pop();
    let renewed_lease = prepared.lease().clone();
    let wrong_result = provider_result(&prepared, wrong_manifest, "Should not persist.");
    assert!(matches!(fixture.persist(prepared, &wrong_result), Err(AiError::Conflict)));

    let prepared = fixture
        .prepare(&renewed_lease, "test-model", 2, 128)
        .expect("second compaction should prepare");
    let result =
        provider_result(&prepared, manifest(&prepared), "Stale source should not persist.");
    fixture.deleted_blocks.push(block_id(1));
    assert!(matches!(fixture.persist(prepared, &result), Err(AiError::Conflict)));
    assert!(fixture.checkpoints.is_empty());
}

#[test]
fn current_access_denial_prevents_source_opening() {
    let mut fixture = Fixture::new();
    fixture.access_granted = false;
    assert!(matches!(
        fixture.prepare(&lease(), "test-model", 2, 128),
        Err(AiError::Forbidden)
    ));
    assert_eq!(fixture.opened_blocks, 0);
}

#[test]
fn compaction_limits_have_fixed_ceilings() {
    let build = |messages, blocks, source, summary, tokens, checkpoints, recent, age| {
        AiContextCompactionLimits::new(
            messages,
            blocks,
            source,
            summary,
            tokens,
            checkpoints,
            recent,
            Duration::seconds(age),
        )
    };
    assert!(
        build(256, 4_096, 67_108_864, 16_777_216, 1_000_000, 5_000, 10_000, 1).is_ok()
    );
    assert!(build(1, 1, 1, 1, 1, 1, 1, 1).is_ok());
    let refused = [
        build(0, 1, 1, 1, 1, 1, 1, 1),
        build(257, 1, 1, 1, 1, 1, 1, 1),
        build(1, 0, 1, 1, 1, 1, 1, 1),
        build(1, 4_097, 1, 1, 1, 1, 1, 1),
        build(1, 1, 0, 1, 1, 1, 1, 1),
        build(1, 1, 67_108_865, 1, 1, 1, 1, 1),
        build(1, 1, 1, 0, 1, 1, 1, 1),
        build(1, 1, 1, 16_777_217, 1, 1, 1, 1),
        build(1, 1, 1, 1, 0, 1, 1, 1),
        build(1, 1, 1, 1, 1_000_001, 1, 1, 1),
        build(1, 1, 1, 1, 1, 0, 1, 1),
        build(1, 1, 1, 1, 1, 5_001, 1, 1),
        build(1, 1, 1, 1, 1, 1, 0, 1),
        build(1, 1, 1, 1, 1, 1, 10_001, 1),
        build(1, 1, 1, 1, 1, 1, 1, 0),
    ];
    for result in refused {
        assert_eq!(
            result,
            Err(AiError::InvalidConfiguration("invalid context-compaction limits".to_owned()))
        );
    }
    assert_eq!(limit_with_lookahead(8), Ok(9));
}

#[test]
fn compaction_requests_are_admitted_within_bounds() {
    let refused =
        Err(AiError::InvalidInput("invalid context-compaction request".to_owned()));
    assert_eq!(admit_compaction_request("m", 1, 1_024, limits()), Ok(()));
    assert_eq!(admit_compaction_request(" ", 1, 1, limits()), refused);
    assert_eq!(admit_compaction_request(&"m".repeat(201), 1, 1, limits()), refused);
    assert_eq!(admit_compaction_request("m", 0, 1, limits()), refused);
    assert_eq!(admit_compaction_request("m", 1, 0, limits()), refused);
    assert_eq!(admit_compaction_request("m", 1, 1_025, limits()), refused);
    let mut stopped = lease();
    stopped.state = AiRunState::WaitingProvider;
    assert_eq!(require_running(&stopped), Err(AiError::Conflict));
}

#[test]
fn boundaries_advance_and_leave_a_recent_tail() {
    assert_eq!(
        select_boundary(&session(), &Vec::new(), 4, limits()),
        Ok(CompactionBoundary {
            parent: None,
            start_sequence: 1,
            through_sequence: 4,
            message_count: 4,
        })
    );
    // Two recent messages stay verbatim.
    assert_eq!(select_boundary(&session(), &Vec::new(), 5, limits()), Err(AiError::Conflict));
    let parent = AiContextCheckpointRecord {
        id: 0x4001,
        session_id: SESSION_ID,
        through_sequence: 2,
        source_hash: context_source_hash(b"one"),
        token_estimate: 20,
        provider_kind: "openai".to_owned(),
        provider_model: "test-model".to_owned(),
        invalidated_at: None,
    };
    let rows = vec![parent.clone()];
    assert_eq!(
        select_boundary(&session(), &rows, 4, limits()),
        Ok(CompactionBoundary {
            parent: Some(0),
            start_sequence: 3,
            through_sequence: 4,
            message_count: 2,
        })
    );
    assert_eq!(select_boundary(&session(), &rows, 2, limits()), Err(AiError::Conflict));
    let mut invalidated = parent.clone();
    invalidated.invalidated_at = Some(NOW);
    assert_eq!(
        select_boundary(&session(), &vec![invalidated], 2, limits()).map(|found| found.parent),
        Ok(None)
    );
    let mut malformed = parent.clone();
    malformed.source_hash = "ABCDEF".to_owned();
    assert_eq!(
        select_boundary(&session(), &vec![malformed], 4, limits()),
        Err(AiError::PersistenceFailed)
    );
    let mut long = session();
    long.message_head = 20;
    assert_eq!(select_boundary(&long, &Vec::new(), 5, limits()), Err(AiError::Conflict));
}

#[test]
fn source_rows_must_be_complete_and_in_order() {
    assert_eq!(validate_source_message(&message(1), SESSION_ID, 1), Ok(()));
    assert_eq!(validate_source_message(&message(1), SESSION_ID, 2), Err(AiError::Conflict));
    let mut streaming = message(1);
    streaming.completion_state = "streaming".to_owned();
    assert_eq!(validate_source_message(&streaming, SESSION_ID, 1), Err(AiError::Conflict));
    let mut purged = message(1);
    purged.content_purged_at = Some(NOW);
    assert_eq!(validate_source_message(&purged, SESSION_ID, 1), Err(AiError::Conflict));
    let mut system = message(1);
    system.message_role = "system".to_owned();
    assert_eq!(validate_source_message(&system, SESSION_ID, 1), Err(AiError::Conflict));

    let boundary = select_boundary(&session(), &Vec::new(), 4, limits()).expect("boundary");
    let mut gathered = CompactionSources::new(SESSION_ID, boundary);
    assert_eq!(gathered.admit_message(&message(1), limits()), Ok(1));
    let mut misplaced = block(1);
    misplaced.block_index = 1;
    assert_eq!(admit_blocks(&message(1), &vec![block(1)]), Ok(()));
    assert_eq!(admit_blocks(&message(1), &Vec::new()), Err(AiError::Conflict));
    assert_eq!(
        gathered.gather(message(1), vec![opened(misplaced, "1")], limits()),
        Err(AiError::Conflict)
    );
    assert_eq!(gathered.gather(message(1), Vec::new(), limits()), Err(AiError::Conflict));
    assert!(gathered.sources.is_empty() && gathered.messages.is_empty());
    assert_eq!(gathered.gather(message(1), vec![opened(block(1), "1")], limits()), Ok(()));
    let mut many = message(2);
    many.block_count = 8;
    assert_eq!(gathered.admit_message(&many, limits()), Err(AiError::Conflict));
    assert_eq!(gathered.admit_message(&message(2), limits()), Ok(1));
    assert_eq!(gathered.gather(message(2), vec![opened(block(2), "2")], limits()), Ok(()));
    assert!(gathered.messages[1].blocks[0].content == b"2");
    // What does not hold a JSON text does not open.
    assert_eq!(
        OpenedBlock::open(block(3), b"{".to_vec()).map(|_| ()),
        Err(AiError::PersistenceFailed)
    );
    // What does is kept byte for byte.
    let nested = format!("{}0.30000000000000004{}", "[".repeat(126), "]".repeat(126));
    let (_, kept) = opened(block(3), &nested).into_parts();
    assert_eq!(kept, nested.as_bytes());

    let sources = gathered.egress(None);
    assert_eq!(sources.len(), 2);
    assert_eq!(sources[0].classification, DataClassification::Restricted);
    assert!(
        sources.iter().any(|source| source.reference.contains("00000000-0000-0000-0000-000000002001")),
        "{sources:?}"
    );
}

#[test]
fn prompts_are_sealed_by_size_and_digest() {
    let sealed = seal_prompt(b"prompt", limits()).expect("prompt fits");
    assert_eq!(sealed.estimated_source_bytes, 6);
    assert_eq!(sealed.estimated_source_tokens, 6);
    assert_eq!(sealed.source_hash, context_source_hash(b"prompt"));
    assert!(valid_hash(&sealed.source_hash));
    assert_ne!(sealed.source_hash, context_source_hash(b"other"));
    let small =
        AiContextCompactionLimits::new(1, 1, 5, 1, 1, 1, 1, Duration::seconds(1)).expect("limits");
    assert_eq!(seal_prompt(b"prompt", small), Err(AiError::Conflict));
    assert!(!valid_hash(&sealed.source_hash.to_uppercase()));
    assert!(!valid_hash("abc"));
    let request = compaction_request("m".to_owned(), b"p".to_vec(), 9);
    assert_eq!(request.instructions, vec![COMPACTION_INSTRUCTION.to_owned()]);
    assert_eq!(request.maximum_output_tokens, Some(9));
}

#[test]
fn protected_columns_name_their_rows() {
    let authority = Fixture::new().authorize(&lease()).expect("authority");
    let context = content_context(CompactionColumn::BlockContent, block_id(1), &authority);
    assert_eq!(context.entity(), "graphql_orm_ai_message_blocks");
    assert_eq!(context.row_id(), "00000000-0000-0000-0000-000000002001");
    assert_eq!(context.field(), "protected_content");
    assert_eq!(context.scope(), &scope());
    let context = content_context(CompactionColumn::CheckpointSummary, 0x4001, &authority);
    assert_eq!(context.entity(), "graphql_orm_ai_context_checkpoints");
    assert_eq!(context.field(), "protected_summary");
}

#[test]
fn only_plain_bounded_text_is_a_summary() {
    let text = |value: &str| ProviderEvent::TextDelta { text: value.to_owned() };
    assert_eq!(
        summary_text(&vec![ProviderEvent::ResponseStarted, text("ab"), text("c")], 3),
        Ok("abc".to_owned())
    );
    assert_eq!(summary_text(&vec![text("ab"), text("cd")], 3), Err(AiError::Conflict));
    assert_eq!(summary_text(&vec![text(" \n")], 3), Err(AiError::Conflict));
    assert_eq!(summary_text(&Vec::new(), 3), Err(AiError::Conflict));
    let refused = [
        ProviderEvent::ReasoningSummaryDelta,
        ProviderEvent::ToolCallStarted,
        ProviderEvent::ToolArgumentsDelta,
        ProviderEvent::ToolCallCompleted,
        ProviderEvent::BuiltinToolStarted,
        ProviderEvent::BuiltinToolCompleted,
        ProviderEvent::Citation,
        ProviderEvent::Unknown,
    ];
    for event in refused {
        assert_eq!(summary_text(&vec![text("a"), event], 3), Err(AiError::Conflict));
    }
}

#[test]
fn results_must_match_the_prepared_compaction() {
    let mut fixture = Fixture::new();
    let prepared = fixture.prepare(&lease(), "test-model", 2, 128).expect("prepares");
    let exact = provider_result(&prepared, manifest(&prepared), "Summary.");
    assert_eq!(validate_result(&prepared, &exact), Ok(()));
    let mut changed = provider_result(&prepared, manifest(&prepared), "Summary.");
    changed.lease_generation = 2;
    assert_eq!(validate_result(&prepared, &changed), Err(AiError::Conflict));
    let mut changed = provider_result(&prepared, manifest(&prepared), "Summary.");
    changed.request.maximum_output_tokens = Some(127);
    assert_eq!(validate_result(&prepared, &changed), Err(AiError::Conflict));
    let mut changed = provider_result(&prepared, manifest(&prepared), "Summary.");
    changed.usage.output_tokens = 0;
    assert_eq!(validate_result(&prepared, &changed), Err(AiError::Conflict));
    let mut changed = provider_result(&prepared, manifest(&prepared), "Summary.");
    changed.model_inference_manifest.purpose = "chat".to_owned();
    assert_eq!(validate_result(&prepared, &changed), Err(AiError::Conflict));
    let mut changed = provider_result(&prepared, manifest(&prepared), "Summary.");
    changed.model_inference_manifest.estimated_bytes -= 1;
    assert_eq!(validate_result(&prepared, &changed), Err(AiError::Conflict));
    // The order in which sources are disclosed does not matter.
    let mut reordered = provider_result(&prepared, manifest(&prepared), "Summary.");
    reordered.model_inference_manifest.sources.reverse();
    assert_eq!(validate_result(&prepared, &reordered), Ok(()));
}

#[test]
fn appends_require_unchanged_rows() {
    let mut fixture = Fixture::new();
    let prepared = fixture.prepare(&lease(), "test-model", 2, 128).expect("prepares");
    let result = provider_result(&prepared, manifest(&prepared), "Summary.");
    let write = persist_compaction(prepared, &result).expect("persists");
    let current = |fixture: &Fixture| -> Vec<PreparedContextCheckpointSource> {
        (1..=2)
            .map(|sequence| PreparedContextCheckpointSource {
                message: message(sequence),
                blocks: fixture.blocks(sequence),
            })
            .collect()
    };
    assert_eq!(admit_append(&write.checkpoint, None, &current(&fixture), true), Ok(()));
    assert_eq!(
        admit_append(&write.checkpoint, None, &current(&fixture), false),
        Err(AiError::Conflict)
    );
    let row = AiContextCheckpointRecord {
        id: 0x4009,
        session_id: SESSION_ID,
        through_sequence: 1,
        source_hash: context_source_hash(b"one"),
        token_estimate: 1,
        provider_kind: "openai".to_owned(),
        provider_model: "test-model".to_owned(),
        invalidated_at: None,
    };
    assert_eq!(
        admit_append(&write.checkpoint, Some(&row), &current(&fixture), true),
        Err(AiError::Conflict)
    );
    let mut edited = current(&fixture);
    edited[1].message.provider_model = Some("other-model".to_owned());
    assert_eq!(
        admit_append(&write.checkpoint, None, &edited, true),
        Err(AiError::Conflict)
    );
    let mut shorter = current(&fixture);
    shorter.pop();
    assert_eq!(
        admit_append(&write.checkpoint, None, &shorter, true),
        Err(AiError::Conflict)
    );
}

#[test]
fn opened_content_must_belong_to_its_row() {
    let mut fixture = Fixture::new();
    let prepared = fixture.prepare(&lease(), "test-model", 2, 128).expect("prepares");
    let result = provider_result(&prepared, manifest(&prepared), "Summary.");
    fixture.persist(prepared, &result).expect("persists");
    let rows = fixture.rows();
    let payload = fixture.payload_of(rows[0].id);
    assert_eq!(validate_opened_checkpoint(&payload, &rows[0], limits()), Ok(()));
    let mut changed = copy_payload(&payload);
    changed.format_version = 2;
    assert_eq!(
        validate_opened_checkpoint(&changed, &rows[0], limits()),
        Err(AiError::PersistenceFailed)
    );
    let mut changed = copy_payload(&payload);
    changed.summary = " ".to_owned();
    assert_eq!(
        validate_opened_checkpoint(&changed, &rows[0], limits()),
        Err(AiError::PersistenceFailed)
    );
    let mut changed = copy_payload(&payload);
    changed.source_messages.pop();
    assert_eq!(
        validate_opened_checkpoint(&changed, &rows[0], limits()),
        Err(AiError::PersistenceFailed)
    );
    assert!(valid_provenance(&payload.source_messages, &None, 2));
    assert!(!valid_provenance(&payload.source_messages, &None, 3));
    assert_eq!(validate_checkpoint_record(&rows[0], SESSION_ID, 6), Ok(()));
    assert_eq!(
        validate_checkpoint_record(&rows[0], SESSION_ID, 1),
        Err(AiError::PersistenceFailed)
    );
    // A second row of the same identity belongs to no chain.
    let twins = vec![rows[0].clone(), rows[0].clone()];
    assert_eq!(
        ChainWalk::begin(twins, limits()).map(|_| ()),
        Err(AiError::PersistenceFailed)
    );
}

#[test]
fn chains_are_walked_to_their_first_checkpoint() {
    let mut fixture = Fixture::new();
    for (through, summary) in [(2, "First."), (4, "Second.")] {
        let prepared = fixture.prepare(&lease(), "test-model", through, 128).expect("prepares");
        let result = provider_result(&prepared, manifest(&prepared), summary);
        fixture.persist(prepared, &result).expect("persists");
    }
    let mut walk = ChainWalk::begin(fixture.rows(), limits()).expect("rows are distinct");
    assert_eq!(walk.next_row(), Some((0, 0x4002)));
    assert_eq!(walk.advance(fixture.payload_of(0x4002)), Ok(()));
    assert_eq!(walk.next_row(), Some((1, 0x4001)));
    // The content of another row is not the parent's.
    assert_eq!(walk.advance(fixture.payload_of(0x4002)), Err(AiError::PersistenceFailed));

    let mut walk = ChainWalk::begin(fixture.rows(), limits()).expect("rows are distinct");
    assert_eq!(walk.advance(fixture.payload_of(0x4002)), Ok(()));
    assert_eq!(walk.finish().map(|_| ()), Err(AiError::PersistenceFailed));

    let chain = fixture.walk(fixture.rows()).expect("the chain is gapless");
    assert_eq!(chain.checkpoints().len(), 2);
    let (row, payload) = chain.latest().expect("a checkpoint is valid");
    assert_eq!((row.id, payload.summary.as_str()), (0x4002, "Second."));
    // Without a valid checkpoint there is nothing to open.
    let empty = ChainWalk::begin(Vec::new(), limits()).expect("no rows");
    assert_eq!(empty.next_row(), None);
    let empty = empty.finish().expect("complete at once");
    assert!(empty.latest().is_none());
    assert!(AiLoadedContextCheckpoint::opened(empty, lease()).is_none());
}

#[test]
fn compactions_need_every_message_of_their_boundary() {
    let mut fixture = Fixture::new();
    fixture.deleted_messages.push(2);
    assert!(matches!(
        fixture.prepare(&lease(), "test-model", 2, 128),
        Err(AiError::Conflict)
    ));
    assert_eq!(fixture.opened_blocks, 0);
    let boundary = select_boundary(&session(), &Vec::new(), 4, limits()).expect("boundary");
    assert_eq!(require_every_message(&boundary, 4), Ok(()));
    assert_eq!(require_every_message(&boundary, 3), Err(AiError::Conflict));
    assert_eq!(require_every_message(&boundary, 5), Err(AiError::Conflict));

    // An incomplete gathering is not assembled either.
    let authority = fixture.authorize(&lease()).expect("authority");
    let boundary = select_boundary(&session(), &Vec::new(), 2, limits()).expect("boundary");
    let messages = fixture.messages(&boundary);
    let gathered = fixture.gather(messages, boundary, &authority).expect("one message");
    assert_eq!(gathered.sources.len(), 1);
    let composed = ComposedCompaction::compose(
        lease(),
        0x4001,
        &authority,
        order("test-model", 2, 128),
        gathered,
        fixture.walk(Vec::new()).expect("no checkpoints"),
    );
    assert_eq!(composed.map(|_| ()), Err(AiError::Conflict));
}

#[test]
fn compactions_are_assembled_from_their_own_session() {
    let compose = |lease: AiRunLease, order: CompactionOrder| {
        let mut fixture = Fixture::new();
        let authority = fixture.authorize(&self::lease()).expect("authority");
        let boundary = select_boundary(&session(), &Vec::new(), 2, limits()).expect("boundary");
        let messages = fixture.messages(&boundary);
        let gathered = fixture.gather(messages, boundary, &authority).expect("both messages");
        let chain = fixture.walk(Vec::new()).expect("no checkpoints");
        ComposedCompaction::compose(lease, 0x4001, &authority, order, gathered, chain)
    };
    let composed = compose(lease(), order("test-model", 2, 128)).expect("composes");
    let request = composed.model_request();
    assert!(request.tools.is_empty() && request.builtin_tools.is_empty());
    assert_eq!(request.continuation, None);
    assert_eq!(request.continuation_mode, ModelContinuationMode::ProviderRetained);
    assert_eq!(request.output_schema, None);
    assert_eq!(request.maximum_output_tokens, Some(128));
    assert!(composed.accept_request(true).is_ok());

    let refused =
        |lease, order| compose(lease, order).map(|_| ()).expect_err("the order is refused");
    assert_eq!(
        refused(lease(), order(" ", 2, 128)),
        AiError::InvalidInput("invalid context-compaction request".to_owned())
    );
    let mut stopped = lease();
    stopped.state = AiRunState::WaitingProvider;
    assert_eq!(refused(stopped, order("test-model", 2, 128)), AiError::Conflict);
    let mut foreign = lease();
    foreign.session_id = 0x5e56;
    assert_eq!(refused(foreign, order("test-model", 2, 128)), AiError::Forbidden);
    // The messages gathered do not reach the boundary asked for.
    assert_eq!(refused(lease(), order("test-model", 4, 128)), AiError::Conflict);
    let composed = compose(lease(), order("test-model", 2, 128)).expect("composes");
    assert_eq!(
        composed.accept_request(false).map(|_| ()),
        Err(AiError::InvalidInput("invalid compaction request".to_owned()))
    );
}

#[test]
fn compactions_are_sealed_with_their_encoding() {
    let seal = |encoded: Vec<u8>| {
        let mut fixture = Fixture::new();
        let authority = fixture.authorize(&lease()).expect("authority");
        let boundary = select_boundary(&session(), &Vec::new(), 2, limits()).expect("boundary");
        let messages = fixture.messages(&boundary);
        let gathered = fixture.gather(messages, boundary, &authority).expect("both messages");
        let chain = fixture.walk(Vec::new()).expect("no checkpoints");
        let order = order("test-model", 2, 128);
        ComposedCompaction::seal(lease(), 0x4001, &authority, order, gathered, chain, encoded)
            .and_then(|composed| composed.accept_request(true))
    };
    assert_eq!(seal(vec![b' '; 64 * 1024 + 1]).map(|_| ()), Err(AiError::Conflict));
    let prepared = seal(b"[1]".to_vec()).expect("sealed");
    assert_eq!(input_text(prepared.model_request()), "[1]");
    assert_eq!(prepared.source_hash(), context_source_hash(b"[1]"));
    assert_eq!(prepared.estimated_source_bytes(), 3);
}

#[test]
fn prompts_hold_the_parent_summary_and_every_block() {
    let mut fixture = Fixture::new();
    let prepared = fixture.prepare(&lease(), "test-model", 2, 128).expect("prepares");
    let expected = "{\"formatVersion\":1,\"messages\":[\
        {\"blocks\":[{\"blockId\":\"00000000-0000-0000-0000-000000002001\",\
        \"content\":{\"text\":\"source message 1\"},\"kind\":\"text\"}],\
        \"messageId\":\"00000000-0000-0000-0000-000000001001\",\
        \"role\":\"user\",\"sequence\":1},\
        {\"blocks\":[{\"blockId\":\"00000000-0000-0000-0000-000000002002\",\
        \"content\":{\"text\":\"source message 2\"},\"kind\":\"text\"}],\
        \"messageId\":\"00000000-0000-0000-0000-000000001002\",\
        \"role\":\"assistant\",\"sequence\":2}],\
        \"parent\":null,\
        \"sessionId\":\"00000000-0000-0000-0000-000000005e55\",\"throughSequence\":2}";
    assert_eq!(input_text(prepared.model_request()), expected);
    assert_eq!(prepared.source_hash(), context_source_hash(expected.as_bytes()));

    let first_hash = prepared.source_hash().to_owned();
    let result = provider_result(&prepared, manifest(&prepared), "A \"quoted\" summary.");
    fixture.persist(prepared, &result).expect("persists");
    let chained = fixture.prepare(&lease(), "test-model", 4, 128).expect("prepares");
    let parent = format!(
        "\"parent\":{{\"checkpointId\":\"00000000-0000-0000-0000-000000004001\",\
        \"sourceHash\":\"{first_hash}\",\"summary\":\"A \\\"quoted\\\" summary.\",\
        \"throughSequence\":2}}"
    );
    assert!(input_text(chained.model_request()).contains(&parent));

    let chain = fixture.walk(fixture.rows()).expect("the chain is gapless");
    let messages = Vec::new();
    let prompt = compaction_prompt(SESSION_ID, 4, &chain, &messages);
    assert_eq!((prompt.format_version, prompt.session_id), (1, SESSION_ID));
    let extended = prompt.parent.expect("a checkpoint is valid");
    assert_eq!(extended.checkpoint_id, 0x4001);
    assert_eq!(extended.summary, "A \"quoted\" summary.");
}

#[test]
fn prompts_are_encoded_in_key_order() {
    let messages = vec![PromptMessage {
        message_id: 1,
        sequence: 7,
        role: "user".to_owned(),
        blocks: vec![
            PromptBlock { block_id: 2, kind: "te\"xt".to_owned(), content: b"[1.10]".to_vec() },
            PromptBlock { block_id: 3, kind: "k".to_owned(), content: b"null".to_vec() },
        ],
    }];
    let text = prompt_text(&CompactionPrompt {
        format_version: 1,
        session_id: 4,
        through_sequence: 7,
        parent: Some(PromptParent {
            checkpoint_id: 5,
            through_sequence: 6,
            source_hash: "ab".to_owned(),
            summary: "line\nbreak".to_owned(),
        }),
        messages: &messages,
    });
    let expected = "{\"formatVersion\":1,\"messages\":[{\"blocks\":[\
        {\"blockId\":\"00000000-0000-0000-0000-000000000002\",\"content\":[1.10],\
        \"kind\":\"te\\\"xt\"},\
        {\"blockId\":\"00000000-0000-0000-0000-000000000003\",\"content\":null,\
        \"kind\":\"k\"}],\
        \"messageId\":\"00000000-0000-0000-0000-000000000001\",\
        \"role\":\"user\",\"sequence\":7}],\
        \"parent\":{\"checkpointId\":\"00000000-0000-0000-0000-000000000005\",\
        \"sourceHash\":\"ab\",\"summary\":\"line\\nbreak\",\"throughSequence\":6},\
        \"sessionId\":\"00000000-0000-0000-0000-000000000004\",\"throughSequence\":7}";
    assert_eq!(String::from_utf8(text).expect("text"), expected);
}

#[test]
fn requests_are_compared_in_every_part() {
    let request = || compaction_request("m".to_owned(), b"{\"a\":1,\"b\":2}".to_vec(), 9);
    assert!(same_request(&request(), &request()));
    // Encoded parts are compared as values.
    let mut spaced = request();
    spaced.input = vec![ModelInputBlock::Json { value: b"{\"b\": 2, \"a\": 1}".to_vec() }];
    assert!(same_request(&spaced, &request()));
    let changed: Vec<ModelRequest> = vec![
        ModelRequest { model: "n".to_owned(), ..request() },
        ModelRequest { instructions: Vec::new(), ..request() },
        ModelRequest { instructions: vec!["other".to_owned()], ..request() },
        ModelRequest { input: Vec::new(), ..request() },
        ModelRequest {
            input: vec![ModelInputBlock::Json { value: b"{\"a\":1}".to_vec() }],
            ..request()
        },
        ModelRequest {
            input: vec![ModelInputBlock::Other { encoding: b"{\"a\":1,\"b\":2}".to_vec() }],
            ..request()
        },
        ModelRequest { continuation: Some(b"1".to_vec()), ..request() },
        ModelRequest { continuation_mode: ModelContinuationMode::Stateless, ..request() },
        ModelRequest { tools: vec![b"1".to_vec()], ..request() },
        ModelRequest { builtin_tools: vec![b"1".to_vec()], ..request() },
        ModelRequest { maximum_builtin_tool_calls: Some(0), ..request() },
        ModelRequest { output_schema: Some(b"{}".to_vec()), ..request() },
        ModelRequest { maximum_output_tokens: None, ..request() },
    ];
    for other in changed {
        assert!(!same_request(&other, &request()));
        assert!(!same_request(&request(), &other));
    }
}

#[test]
fn compaction_principals_may_be_as_old_as_allowed() {
    let attempt = |second: i64| {
        let session = session();
        let scope = session_scope(&session);
        let resolved = ResolvedPrincipal {
            reference: reference(),
            principal: AuthPrincipal::User { subject: "context-user".to_owned() },
            resolved_at: at(NOW),
        };
        AuthorityCheck::begin(&Some(session), &lease(), &scope)
            .and_then(|check| limits().admit_principal(check, &resolved, at(second)))
            .map(|_| ())
    };
    assert_eq!(attempt(NOW + 300), Ok(()));
    assert_eq!(attempt(NOW + 301), Err(AiError::ReauthorizationFailed));
}

#[test]
fn sources_are_ordered_by_kind_reference_and_sensitivity() {
    let source = |kind: &str, reference: &str, classification| AiDataSourceRef {
        kind: kind.to_owned(),
        reference: reference.to_owned(),
        classification,
        trust: AiSourceTrust::UserProvided,
    };
    let sorted = sort_sources(&vec![
        source("b", "1", DataClassification::Public),
        source("a", "2", DataClassification::Public),
        source("a", "1", DataClassification::Secret),
        source("a", "1", DataClassification::Public),
    ]);
    let keys: Vec<(String, String, DataClassification)> = sorted
        .into_iter()
        .map(|source| (source.kind, source.reference, source.classification))
        .collect();
    assert_eq!(
        keys,
        vec![
            ("a".to_owned(), "1".to_owned(), DataClassification::Public),
            ("a".to_owned(), "1".to_owned(), DataClassification::Secret),
            ("a".to_owned(), "2".to_owned(), DataClassification::Public),
            ("b".to_owned(), "1".to_owned(), DataClassification::Public),
        ]
    );
}

#[test]
fn compaction_store_failures_are_mapped() {
    assert_eq!(
        map_compaction_orm(OrmErrorCode::ConstraintViolation, "unique"),
        AiError::PersistenceFailed
    );
    assert_eq!(map_compaction_orm(OrmErrorCode::Conflict, ""), AiError::Conflict);
    assert_eq!(map_compaction_orm(OrmErrorCode::NotFound, ""), AiError::NotFound);
    assert_eq!(
        map_compaction_orm(OrmErrorCode::InvalidInput, "bad"),
        AiError::InvalidInput("bad".to_owned())
    );
}

#[test]
fn checkpoints_hand_back_their_renewed_lease() {
    let mut fixture = Fixture::new();
    let prepared =
        fixture.prepare(&lease(), "test-model", 2, 128).expect("compaction should prepare");
    let check = prepared.begin_authority().expect("the session is still bound");
    assert_eq!(check.scope(), &scope());
    let result = provider_result(&prepared, manifest(&prepared), "Summary.");
    let persisted = fixture.persist(prepared, &result).expect("checkpoint should persist");
    let renewed = persisted.lease().clone();
    let loaded = fixture
        .load_latest(&renewed)
        .expect("checkpoint should load")
        .expect("checkpoint should exist");
    assert_eq!(persisted.into_lease(), renewed);
    assert_eq!(loaded.into_lease(), renewed);
}
