//! Coordinator checkpoints: writing one batch and adopting it again.

use graphql_orm_ai::access::{
    AiContentProtectionMode, AiContentProtectionPolicy, AiRunLease, AiRunState,
};
use graphql_orm_ai::authority::{AuthorityCheck, ContentAuthority};
use graphql_orm_ai::budget::amounts::{AiBudgetAmounts, StoredAmounts};
use graphql_orm_ai::budget::rows::{AiBudgetReservationRecord, StoredActual};
use graphql_orm_ai::checkpoints::adoption::{
    AiRunCheckpointRecord, AiRunStepRecord, AiToolCallRecord, CoordinatorCheckpointPayload,
    ProviderResultSnapshot, ProviderToolSnapshot, ToolResultSnapshot, check_payload,
};
use graphql_orm_ai::checkpoints::batch::BatchAdoption;
use graphql_orm_ai::checkpoints::continuation::{
    AiAgentContinuation, ModelInputBlock, RoutedTransfer, StatelessEvidence, StatelessTool,
};
use graphql_orm_ai::checkpoints::limits::{
    AiCoordinatorCheckpointLimits, ToolCallField, checkpoint_context, enforce_size,
    tool_call_context,
};
use graphql_orm_ai::checkpoints::persistence::{
    AiResolvedRuleSet, CheckpointKind, CheckpointRequest, admit_checkpoint, assemble_checkpoint,
    checkpoint_payload, prepare_checkpoint_tools, require_unchanged_rules,
};
use graphql_orm_ai::clock::{Duration, UtcTime};
use graphql_orm_ai::coordinator::{AiAdoptedReadOnlyToolBatch, AiRuleRunUsage};
use graphql_orm_ai::digest::Uuid;
use graphql_orm_ai::egress::{
    AiDataSourceRef, AiDestinationTrust, AiEgressCapability, AiEgressEventRecord,
    AiEgressManifest, AiSourceTrust,
};
use graphql_orm_ai::error::AiError;
use graphql_orm_ai::json::canonical_json_hash;
use graphql_orm_ai::principal::{
    AiScope, AuthPrincipal, PrincipalReference, PrincipalReferenceKind, ResolvedPrincipal,
};
use graphql_orm_ai::provider::{DataClassification, ProviderKind};
use graphql_orm_ai::provider_result::{
    AiPersistedApplicationToolCall, AiProviderCallResult, ModelContinuationMode, ModelRequest,
    ProviderToolCall,
};
use graphql_orm_ai::records::AiSessionRecord;

const CHECKPOINT_ID: Uuid = 0xc0;
const CURRENT_BUDGET: Uuid = 0xb2;
const EARLIER_BUDGET: Uuid = 0xb1;
const HASH: &str = "checkpoint-hash";

fn scope() -> AiScope {
    AiScope::new("tenant", "t1").with_tenant_id("t1")
}

fn reference() -> PrincipalReference {
    PrincipalReference {
        kind: PrincipalReferenceKind::UserSession,
        subject: "u1".to_owned(),
        tenant_id: Some("t1".to_owned()),
        expires_at: None,
        encoding: "{}".to_owned(),
    }
}

fn lease() -> AiRunLease {
    AiRunLease {
        session_id: 1,
        run_id: 2,
        attempt_id: 3,
        lease_generation: 4,
        state: AiRunState::Running,
        principal_reference: reference(),
        latest_checkpoint_id: Some(CHECKPOINT_ID),
    }
}

fn policy(version: u64) -> AiContentProtectionPolicy {
    AiContentProtectionPolicy {
        scope: scope(),
        mode: AiContentProtectionMode::DatabaseManaged,
        key_policy_reference: None,
        version,
        ready: true,
    }
}

fn session() -> AiSessionRecord {
    AiSessionRecord {
        id: 1,
        owner_principal_kind: "user".to_owned(),
        owner_subject: "u1".to_owned(),
        tenant_id: Some("t1".to_owned()),
        scope_kind: "tenant".to_owned(),
        scope_id: "t1".to_owned(),
        state: "active".to_owned(),
        stream_head: 0,
        message_head: 0,
        deleted_at: None,
        row_version: 1,
    }
}

fn authority(policy: AiContentProtectionPolicy, reference: PrincipalReference) -> ContentAuthority {
    let now = UtcTime::from_unix_timestamp(1_700_000_000).expect("calendar instant");
    let resolved = ResolvedPrincipal {
        reference,
        principal: AuthPrincipal::User { subject: "u1".to_owned() },
        resolved_at: now,
    };
    AuthorityCheck::begin(&Some(session()), &lease(), &scope())
        .and_then(|check| check.admit_principal(&resolved, now, Duration::seconds(60)))
        .and_then(|check| check.admit_access(true, true))
        .and_then(|check| check.admit_policy(policy))
        .expect("the authority is earned")
}

fn fingerprint() -> String {
    "f".repeat(64)
}

fn tool_uuid(index: usize) -> Uuid {
    0x70 + index as Uuid
}

fn manifest(index: usize) -> AiEgressManifest {
    AiEgressManifest {
        provider_profile_id: "profile".to_owned(),
        provider_kind: "openai".to_owned(),
        model: "test-model".to_owned(),
        destination: "provider".to_owned(),
        destination_trust: AiDestinationTrust::ManagedProvider,
        capability: AiEgressCapability::ToolResult,
        scope: scope(),
        session_id: Some(1),
        run_id: Some(2),
        sources: vec![AiDataSourceRef {
            kind: "application_tool_result".to_owned(),
            reference: format!("00000000-0000-0000-0000-0000000000{:02x}", tool_uuid(index)),
            classification: DataClassification::Internal,
            trust: AiSourceTrust::ResolverResult,
        }],
        estimated_bytes: 10,
        estimated_tokens: 5,
        attachment_count: 0,
        purpose: "tool_result".to_owned(),
        retention: "none".to_owned(),
        residency: None,
        policy_version: "v1".to_owned(),
        consent_reference: None,
        maximum_classification: DataClassification::Internal,
        stable_hash: format!("manifest-{index}"),
    }
}

fn call_id(index: usize) -> String {
    format!("call-{index}")
}

fn tool_id() -> String {
    "orders.lookup".to_owned()
}

fn arguments(index: usize) -> Vec<u8> {
    format!("{{\"order\":{index},\"detail\":true}}").into_bytes()
}

fn output(index: usize) -> Vec<u8> {
    format!("{{\"total\":{index}}}").into_bytes()
}

fn input(index: usize) -> ModelInputBlock {
    ModelInputBlock::ToolResult { call_id: call_id(index), tool_id: tool_id(), output: output(index) }
}

/// Budget of an earlier turn.
fn earlier_budget(turn: u32) -> Uuid {
    EARLIER_BUDGET + 0x100 * Uuid::from(turn)
}

/// Rows and payload of a batch with the given tools, after the given turns. The
/// tools of a stateless chain's history follow them, each by its earlier turn.
struct Fixture {
    tools: usize,
    turns: u32,
    earlier: Vec<u32>,
    response: Option<String>,
}

impl Fixture {
    fn retained() -> Fixture {
        Fixture {
            tools: 2,
            turns: 1,
            earlier: Vec::new(),
            response: Some("response".to_owned()),
        }
    }

    fn stateless() -> Fixture {
        Fixture::after(2, vec![0])
    }

    /// A stateless batch of one tool, with the given history.
    fn after(turns: u32, earlier: Vec<u32>) -> Fixture {
        Fixture { tools: 1, turns, earlier, response: None }
    }

    fn count(&self) -> usize {
        self.tools + self.earlier.len()
    }

    /// The turn of a tool, and its place in that turn.
    fn place(&self, index: usize) -> (u32, usize) {
        if index < self.tools {
            return (self.turns - 1, index);
        }
        let turn = self.earlier[index - self.tools];
        let before = &self.earlier[..index - self.tools];
        (turn, before.iter().filter(|other| **other == turn).count())
    }

    fn checkpoint(&self) -> AiRunCheckpointRecord {
        AiRunCheckpointRecord {
            id: CHECKPOINT_ID,
            run_id: 2,
            attempt_id: 3,
            lease_generation: 4,
            checkpoint_kind: "tool_batch_persisted".to_owned(),
            provider_response_id: self.response.clone(),
            budget_reservation_id: Some(CURRENT_BUDGET),
            protected_state: Some(b"{}".to_vec()),
            assistant_message_id: None,
            checkpoint_hash: HASH.to_owned(),
        }
    }

    fn budget(&self, id: Uuid) -> AiBudgetReservationRecord {
        AiBudgetReservationRecord {
            id,
            budget_counter_ids: Some(Vec::new()),
            scope_kind: "tenant".to_owned(),
            scope_id: "t1".to_owned(),
            tenant_id: Some("t1".to_owned()),
            principal_kind: "user".to_owned(),
            principal_subject: "u1".to_owned(),
            session_id: 1,
            run_id: 2,
            attempt_id: 3,
            lease_generation: 4,
            provider_kind: "openai".to_owned(),
            provider_model: "test-model".to_owned(),
            pricing_policy_version: "v1".to_owned(),
            reserved: StoredAmounts {
                input_tokens: 10,
                output_tokens: 10,
                tool_units: 0,
                image_units: 0,
                cost_microunits: 0,
                runs: 1,
            },
            actual: StoredActual {
                input_tokens: Some(8),
                output_tokens: Some(4),
                tool_units: Some(0),
                image_units: Some(0),
                cost_microunits: Some(0),
                runs: Some(1),
            },
            actual_cached_input_tokens: Some(2),
            idempotency_key: "key".to_owned(),
            state: "committed".to_owned(),
            expires_at: 0,
            reconciled_at: Some(1),
            row_version: 1,
        }
    }

    fn payload(&self) -> CoordinatorCheckpointPayload {
        let calls = self.count() as u32;
        CoordinatorCheckpointPayload {
            format_version: 2,
            checkpoint_kind: "tool_batch_persisted".to_owned(),
            provider_turns: self.turns,
            total_tool_calls: calls,
            scope: scope(),
            rule_fingerprint: fingerprint(),
            rule_usage: AiRuleRunUsage {
                provider_calls: u64::from(self.turns),
                steps: u64::from(self.turns + calls),
            },
            correlation_id: "corr".to_owned(),
            provider_result: ProviderResultSnapshot {
                format_version: 1,
                session_id: 1,
                run_id: 2,
                attempt_id: 3,
                lease_generation: 4,
                provider_kind: ProviderKind::OpenAi,
                provider_model: "test-model".to_owned(),
                provider_response_id: self.response.clone(),
                budget_reservation_id: CURRENT_BUDGET,
                previous_response_id: None,
                tool_calls: (0..self.tools)
                    .map(|index| ProviderToolSnapshot {
                        call_id: call_id(index),
                        tool_id: tool_id(),
                        provider_name: Some("orders_lookup".to_owned()),
                        tool_fingerprint: "fingerprint".to_owned(),
                        arguments: arguments(index),
                    })
                    .collect(),
            },
            completed_tools: (0..self.tools)
                .map(|index| ToolResultSnapshot {
                    id: tool_uuid(index),
                    provider_call_id: call_id(index),
                    state: "completed".to_owned(),
                    model_input: input(index),
                    egress_manifest: manifest(index),
                })
                .collect(),
        }
    }

    fn continuation(&self) -> AiAgentContinuation {
        let transfer =
            |index| RoutedTransfer { manifest: manifest(index), route_matches: true };
        let item = |index| {
            let (turn, position) = self.place(index);
            StatelessTool {
                call_id: call_id(index),
                tool_id: tool_id(),
                provider_name: "orders_lookup".to_owned(),
                tool_fingerprint: "fingerprint".to_owned(),
                arguments: arguments(index),
                output: output(index),
                provider_turn_index: i64::from(turn),
                tool_call_index: position,
            }
        };
        let evidence = if self.response.is_none() {
            Some(StatelessEvidence {
                provider_turns: self.turns,
                tools: (self.tools..self.count()).chain(0..self.tools).map(item).collect(),
                current_tool_count: self.tools,
            })
        } else {
            None
        };
        AiAgentContinuation {
            provider_response_id: self.response.clone(),
            input: (0..self.tools).map(input).collect(),
            transfers: (0..self.tools).map(transfer).collect(),
            replay_transfers: (self.tools..self.count()).map(transfer).collect(),
            stateless_evidence: evidence,
        }
    }

    fn historical(&self, index: usize) -> bool {
        index >= self.tools
    }

    fn call(&self, index: usize) -> AiToolCallRecord {
        let (turn, position) = self.place(index);
        AiToolCallRecord {
            id: tool_uuid(index),
            run_id: 2,
            lease_generation: 4,
            provider_call_id: call_id(index),
            provider_kind: Some("openai".to_owned()),
            provider_model: Some("test-model".to_owned()),
            provider_response_id: self.response.clone(),
            budget_reservation_id: Some(if self.historical(index) {
                earlier_budget(turn)
            } else {
                CURRENT_BUDGET
            }),
            provider_turn_index: i64::from(turn),
            tool_call_index: position as i64,
            tool_id: tool_id(),
            tool_fingerprint: "fingerprint".to_owned(),
            argument_hash: canonical_json_hash(&arguments(index)).expect("arguments are JSON"),
            state: "completed".to_owned(),
            result_egress_manifest_hash: Some(format!("manifest-{index}")),
            result_egress_decision_id: Some(0xd0 + index as Uuid),
            authorization_code: Some("allowed".to_owned()),
            disclosure_schema_fingerprint: Some("schema".to_owned()),
            result_classification: Some("internal".to_owned()),
            authorization_policy_version: Some("v1".to_owned()),
            authorization_state_digest: Some("digest".to_owned()),
            completed_at: Some(5),
            correlation_id: Some("corr".to_owned()),
        }
    }

    fn step(&self, index: usize) -> AiRunStepRecord {
        AiRunStepRecord {
            id: 0xe0 + index as Uuid,
            run_id: 2,
            lease_generation: 4,
            state: "completed".to_owned(),
            finished_at: Some(5),
        }
    }

    fn event(&self, index: usize) -> AiEgressEventRecord {
        AiEgressEventRecord {
            id: 0xd0 + index as Uuid,
            run_id: Some(2),
            principal_subject: "u1".to_owned(),
            scope_kind: "tenant".to_owned(),
            scope_id: "t1".to_owned(),
            manifest_hash: format!("manifest-{index}"),
            destination: "provider".to_owned(),
            capability: "tool_result".to_owned(),
            classification: "internal".to_owned(),
            outcome: "allow".to_owned(),
            reason_code: "allowed".to_owned(),
            policy_version: "v1".to_owned(),
            estimated_bytes: 10,
            estimated_tokens: 5,
        }
    }

    fn begin(&self) -> Result<BatchAdoption, AiError> {
        BatchAdoption::begin(
            CHECKPOINT_ID,
            &Some(self.checkpoint()),
            &Some(self.budget(CURRENT_BUDGET)),
            HASH,
            self.payload(),
            Some(self.continuation()),
            &lease(),
            &scope(),
        )
    }

    /// Admits the tool at `index`.
    fn take(&self, adoption: BatchAdoption, index: usize) -> Result<BatchAdoption, AiError> {
        let (adoption, id) = adoption.bind_next()?;
        assert_eq!(id, tool_uuid(index));
        let budget = if self.historical(index) {
            Some(self.budget(earlier_budget(self.place(index).0)))
        } else {
            None
        };
        let (adoption, decision) =
            adoption.admit_rows(&Some(self.call(index)), &Some(self.step(index)), &budget)?;
        assert_eq!(decision, 0xd0 + index as Uuid);
        let adoption = adoption.admit_opened(&arguments(index), &Some(output(index)))?;
        adoption.admit_transfer(&Some(self.event(index)))
    }

    /// Admits the first `count` tools.
    fn admitted(&self, count: usize) -> Result<BatchAdoption, AiError> {
        let mut adoption = self.begin()?;
        for index in 0..count {
            assert!(adoption.has_next());
            adoption = self.take(adoption, index)?;
        }
        Ok(adoption)
    }

    fn adopt(&self) -> Result<AiAdoptedReadOnlyToolBatch, AiError> {
        let adoption = self.admitted(self.count())?;
        assert!(!adoption.has_next());
        let authority = authority(policy(1), reference());
        adoption.finish(&authority, &authority, &fingerprint(), true)
    }
}

#[test]
fn retained_batches_are_adopted_tool_by_tool() {
    let batch = Fixture::retained().adopt().expect("the batch is adopted");
    assert_eq!(batch.checkpoint_id(), CHECKPOINT_ID);
    assert_eq!(batch.provider_turns(), 1);
    assert_eq!(batch.total_tool_calls(), 2);
    assert_eq!(batch.scope(), &scope());
    let (continuation, rules, usage) = batch.into_parts();
    assert_eq!(continuation.input.len(), 2);
    assert_eq!(rules, fingerprint());
    assert_eq!(usage, AiRuleRunUsage { provider_calls: 1, steps: 3 });
}

#[test]
fn stateless_batches_are_adopted_with_their_history() {
    let batch = Fixture::stateless().adopt().expect("the batch is adopted");
    assert_eq!(batch.provider_turns(), 2);
    assert_eq!(batch.total_tool_calls(), 2);
}

#[test]
fn adoption_refuses_checkpoints_that_do_not_bind() {
    let fixture = Fixture::retained();
    let begin = |checkpoint, budget, hash: &str, payload, continuation| {
        BatchAdoption::begin(
            CHECKPOINT_ID,
            &checkpoint,
            &budget,
            hash,
            payload,
            continuation,
            &lease(),
            &scope(),
        )
        .map(|_| ())
    };
    let row = || Some(fixture.checkpoint());
    let budget = || Some(fixture.budget(CURRENT_BUDGET));
    let payload = || fixture.payload();
    let next = || Some(fixture.continuation());
    assert_eq!(begin(row(), budget(), HASH, payload(), next()), Ok(()));
    assert_eq!(begin(None, budget(), HASH, payload(), next()), Err(AiError::NotFound));
    assert_eq!(begin(row(), None, HASH, payload(), next()), Err(AiError::NotFound));
    assert_eq!(begin(row(), budget(), "other", payload(), next()), Err(AiError::Conflict));
    assert_eq!(begin(row(), budget(), HASH, payload(), None), Err(AiError::Conflict));

    let mut turn = fixture.checkpoint();
    turn.checkpoint_kind = "provider_turn_persisted".to_owned();
    assert_eq!(begin(Some(turn), budget(), HASH, payload(), next()), Err(AiError::Conflict));
    let mut open = fixture.budget(CURRENT_BUDGET);
    open.state = "reserved".to_owned();
    assert_eq!(begin(row(), Some(open), HASH, payload(), next()), Err(AiError::Conflict));
    let mut old = fixture.payload();
    old.format_version = 1;
    assert_eq!(begin(row(), budget(), HASH, old, next()), Err(AiError::Conflict));
    let mut moved = fixture.payload();
    moved.provider_result.lease_generation = 5;
    assert_eq!(begin(row(), budget(), HASH, moved, next()), Err(AiError::Conflict));
    let mut unchained = fixture.continuation();
    unchained.provider_response_id = None;
    assert_eq!(
        begin(row(), budget(), HASH, payload(), Some(unchained)),
        Err(AiError::Conflict)
    );
}

#[test]
fn adoption_refuses_tools_without_evidence() {
    let fixture = Fixture::retained();
    let bound = || fixture.begin().expect("begins").bind_next().expect("binds").0;
    let call = || Some(fixture.call(0));
    let step = || Some(fixture.step(0));
    assert_eq!(
        bound().admit_rows(&None, &step(), &None).map(|_| ()),
        Err(AiError::NotFound)
    );
    assert_eq!(
        bound().admit_rows(&call(), &None, &None).map(|_| ()),
        Err(AiError::NotFound)
    );
    let mut running = fixture.call(0);
    running.state = "running".to_owned();
    assert_eq!(
        bound().admit_rows(&Some(running), &step(), &None).map(|_| ()),
        Err(AiError::Conflict)
    );
    let mut forged = fixture.call(0);
    forged.argument_hash = canonical_json_hash(&arguments(1)).expect("arguments are JSON");
    assert_eq!(
        bound().admit_rows(&Some(forged), &step(), &None).map(|_| ()),
        Err(AiError::Conflict)
    );

    let rowed = || bound().admit_rows(&call(), &step(), &None).expect("rows are admitted").0;
    assert_eq!(
        rowed().admit_opened(&arguments(0), &None).map(|_| ()),
        Err(AiError::Conflict)
    );
    assert_eq!(
        rowed().admit_opened(&arguments(1), &Some(output(0))).map(|_| ()),
        Err(AiError::Conflict)
    );
    // The order of members does not matter, their values do.
    let reordered = b"{\"detail\":true,\"order\":0}".to_vec();
    assert!(rowed().admit_opened(&reordered, &Some(output(0))).is_ok());

    let opened =
        || rowed().admit_opened(&arguments(0), &Some(output(0))).expect("contents are admitted");
    assert_eq!(opened().admit_transfer(&None).map(|_| ()), Err(AiError::NotFound));
    let mut denied = fixture.event(0);
    denied.outcome = "deny".to_owned();
    assert_eq!(
        opened().admit_transfer(&Some(denied)).map(|_| ()),
        Err(AiError::EgressDenied)
    );
}

#[test]
fn adoption_refuses_repeated_and_unroutable_tools() {
    let fixture = Fixture::retained();
    let begin = |payload, continuation| {
        BatchAdoption::begin(
            CHECKPOINT_ID,
            &Some(fixture.checkpoint()),
            &Some(fixture.budget(CURRENT_BUDGET)),
            HASH,
            payload,
            Some(continuation),
            &lease(),
            &scope(),
        )
        .expect("begins")
    };
    let mut unroutable = fixture.continuation();
    unroutable.transfers[0].route_matches = false;
    assert_eq!(
        begin(fixture.payload(), unroutable).bind_next().map(|_| ()),
        Err(AiError::EgressDenied)
    );
    let mut repeated = fixture.payload();
    repeated.completed_tools[1].id = tool_uuid(0);
    let adoption = fixture.take(begin(repeated, fixture.continuation()), 0).expect("first tool");
    assert_eq!(adoption.bind_next().map(|_| ()), Err(AiError::Conflict));
    let mut changed = fixture.continuation();
    changed.input[0] = input(1);
    assert_eq!(
        begin(fixture.payload(), changed).bind_next().map(|_| ()),
        Err(AiError::Conflict)
    );
}

#[test]
fn stateless_history_needs_a_budget_for_each_turn() {
    let fixture = Fixture::stateless();
    let current = || fixture.take(fixture.begin().expect("begins"), 0).expect("current tool");
    let bound = || current().bind_next().expect("binds history").0;
    let call = || Some(fixture.call(1));
    let step = || Some(fixture.step(1));
    assert_eq!(
        bound().admit_rows(&call(), &step(), &None).map(|_| ()),
        Err(AiError::NotFound)
    );
    let mut unbudgeted = fixture.call(1);
    unbudgeted.budget_reservation_id = None;
    assert_eq!(
        bound().admit_rows(&Some(unbudgeted), &step(), &None).map(|_| ()),
        Err(AiError::Conflict)
    );
    // An earlier turn cannot share the current turn's budget.
    let mut shared = fixture.call(1);
    shared.budget_reservation_id = Some(CURRENT_BUDGET);
    assert_eq!(
        bound()
            .admit_rows(&Some(shared), &step(), &Some(fixture.budget(CURRENT_BUDGET)))
            .map(|_| ()),
        Err(AiError::Conflict)
    );
}

#[test]
fn histories_that_lack_a_turn_are_refused() {
    assert!(Fixture::after(3, vec![0, 1]).adopt().is_ok());
    for earlier in [vec![0], vec![1], vec![0, 0]] {
        let fixture = Fixture::after(3, earlier);
        let adoption = fixture.admitted(fixture.count()).expect("every tool is admitted");
        assert_eq!(adoption.check_history(), Err(AiError::Conflict));
        let authority = authority(policy(1), reference());
        assert_eq!(
            adoption.finish(&authority, &authority, &fingerprint(), true).map(|_| ()),
            Err(AiError::Conflict)
        );
    }
}

#[test]
fn tools_of_one_earlier_turn_share_its_budget() {
    let fixture = Fixture::after(2, vec![0, 0]);
    assert!(fixture.adopt().is_ok());
    let second = fixture.admitted(2).and_then(|adoption| adoption.bind_next()).expect("binds").0;
    let mut apart = fixture.call(2);
    apart.budget_reservation_id = Some(earlier_budget(7));
    assert_eq!(
        second
            .admit_rows(
                &Some(apart),
                &Some(fixture.step(2)),
                &Some(fixture.budget(earlier_budget(7))),
            )
            .map(|_| ()),
        Err(AiError::Conflict)
    );
}

#[test]
fn earlier_turns_have_budgets_of_their_own() {
    let fixture = Fixture::after(3, vec![0, 1]);
    let second = fixture.admitted(2).and_then(|adoption| adoption.bind_next()).expect("binds").0;
    let mut shared = fixture.call(2);
    shared.budget_reservation_id = Some(earlier_budget(0));
    assert_eq!(
        second
            .admit_rows(
                &Some(shared),
                &Some(fixture.step(2)),
                &Some(fixture.budget(earlier_budget(0))),
            )
            .map(|_| ()),
        Err(AiError::Conflict)
    );
}

#[test]
fn adoption_ends_where_authority_drifted() {
    let fixture = Fixture::retained();
    let finish = |current_policy, current: PrincipalReference, rules: &str, usage_valid| {
        let first = fixture.take(fixture.begin().expect("begins"), 0).expect("first");
        fixture
            .take(first, 1)
            .expect("second")
            .finish(
                &authority(policy(1), reference()),
                &authority(current_policy, current),
                rules,
                usage_valid,
            )
            .map(|_| ())
    };
    assert_eq!(finish(policy(1), reference(), &fingerprint(), true), Ok(()));
    let drifted = Err(AiError::ReauthorizationFailed);
    assert_eq!(finish(policy(2), reference(), &fingerprint(), true), drifted);
    assert_eq!(finish(policy(1), reference(), "other", true), drifted);
    assert_eq!(finish(policy(1), reference(), &fingerprint(), false), drifted);
    let mut other = reference();
    other.subject = "u2".to_owned();
    assert_eq!(finish(policy(1), other, &fingerprint(), true), drifted);
}

fn provider_result(tools: usize) -> AiProviderCallResult {
    AiProviderCallResult {
        session_id: 1,
        run_id: 2,
        attempt_id: 3,
        lease_generation: 4,
        provider_kind: ProviderKind::OpenAi,
        provider_model: "test-model".to_owned(),
        provider_response_id: Some("response".to_owned()),
        budget_reservation_id: CURRENT_BUDGET,
        tool_calls: expected_calls(tools),
        usage: AiBudgetAmounts {
            input_tokens: 1,
            output_tokens: 1,
            tool_units: 0,
            image_units: 0,
            cost_microunits: 0,
            runs: 1,
        },
        events: Vec::new(),
        request: ModelRequest {
            model: "test-model".to_owned(),
            instructions: Vec::new(),
            input: Vec::new(),
            continuation: None,
            continuation_mode: ModelContinuationMode::ProviderRetained,
            tools: Vec::new(),
            builtin_tools: Vec::new(),
            maximum_builtin_tool_calls: None,
            output_schema: None,
            maximum_output_tokens: None,
        },
        model_inference_manifest: manifest(0),
    }
}

fn expected_calls(tools: usize) -> Vec<ProviderToolCall> {
    (0..tools)
        .map(|index| ProviderToolCall { call_id: call_id(index), tool_id: tool_id() })
        .collect()
}

fn completed_tool(index: usize) -> AiPersistedApplicationToolCall {
    AiPersistedApplicationToolCall {
        id: tool_uuid(index),
        provider_call_id: call_id(index),
        egress_manifest: Some(manifest(index)),
        route_matches: true,
        model_input: Some(input(index)),
        checkpoint_value: Some(output(index)),
    }
}

/// A completed batch that is about to be checkpointed.
struct Batch {
    rules: AiResolvedRuleSet,
    tools: Vec<AiPersistedApplicationToolCall>,
    continuation: AiAgentContinuation,
}

impl Batch {
    fn new() -> Batch {
        Batch {
            rules: AiResolvedRuleSet { target_scope: scope(), fingerprint: fingerprint() },
            tools: vec![completed_tool(0), completed_tool(1)],
            continuation: Fixture::retained().continuation(),
        }
    }

    fn request(&self) -> CheckpointRequest<'_> {
        CheckpointRequest {
            kind: CheckpointKind::ToolBatchPersisted,
            scope: scope(),
            correlation_id: "corr".to_owned(),
            rules: &self.rules,
            rule_usage: AiRuleRunUsage { provider_calls: 1, steps: 3 },
            provider_turns: 1,
            total_tool_calls: 2,
            completed_tools: &self.tools,
            continuation: Some(&self.continuation),
        }
    }

    /// The turn of the batch, before its tools are executed.
    fn turn(&self) -> CheckpointRequest<'_> {
        let mut turn = self.request();
        turn.kind = CheckpointKind::ProviderTurnPersisted;
        turn.rule_usage.steps = 1;
        turn.completed_tools = &[];
        turn.continuation = None;
        turn
    }
}

#[test]
fn checkpoints_count_what_they_bind() {
    let result = provider_result(2);
    let batch = Batch::new();
    assert_eq!(admit_checkpoint(&batch.request(), &lease(), &result), Ok(()));
    let mut turn = batch.turn();
    assert_eq!(admit_checkpoint(&turn, &lease(), &result), Ok(()));
    turn.rule_usage.steps = 3;
    assert_eq!(admit_checkpoint(&turn, &lease(), &result), Err(AiError::Conflict));
    let mut short = Batch::new();
    short.tools.pop();
    assert_eq!(admit_checkpoint(&short.request(), &lease(), &result), Err(AiError::Conflict));
    let mut foreign = Batch::new();
    foreign.rules.target_scope = AiScope::new("tenant", "t2");
    assert_eq!(admit_checkpoint(&foreign.request(), &lease(), &result), Err(AiError::Conflict));
    let mut stale = lease();
    stale.lease_generation = 5;
    assert_eq!(admit_checkpoint(&batch.request(), &stale, &result), Err(AiError::Conflict));
    assert_eq!(require_unchanged_rules("a", "a", true), Ok(()));
    assert_eq!(
        require_unchanged_rules("a", "b", true),
        Err(AiError::ReauthorizationFailed)
    );
}

#[test]
fn checkpoint_states_record_their_request() {
    let compose = |request: &CheckpointRequest| {
        let continuation = request.continuation.map(|_| b"chain".to_vec());
        checkpoint_payload(request, b"route".to_vec(), b"result".to_vec(), continuation)
    };
    let batch = Batch::new();
    let state = compose(&batch.request()).expect("every tool has a value");
    assert_eq!(state.format_version, 2);
    assert_eq!(state.checkpoint_kind, "tool_batch_persisted");
    assert_eq!((state.provider_turns, state.total_tool_calls), (1, 2));
    assert_eq!(state.scope, scope());
    assert_eq!(state.rule_fingerprint, fingerprint());
    assert_eq!(state.rule_usage, AiRuleRunUsage { provider_calls: 1, steps: 3 });
    assert_eq!(state.correlation_id, "corr");
    assert_eq!(state.result_egress_route, b"route");
    assert_eq!(state.provider_result, b"result");
    assert_eq!(state.completed_tools, vec![output(0), output(1)]);
    assert_eq!(state.continuation, Some(b"chain".to_vec()));

    let state = compose(&batch.turn()).expect("a turn has no tools");
    assert_eq!(state.checkpoint_kind, "provider_turn_persisted");
    assert!(state.completed_tools.is_empty() && state.continuation.is_none());

    let mut valueless = Batch::new();
    valueless.tools[1].checkpoint_value = None;
    assert_eq!(compose(&valueless.request()).map(|_| ()), Err(AiError::EgressDenied));
}

#[test]
fn persisted_batches_pass_the_payload_check() {
    let batch = Batch::new();
    let request = batch.request();
    assert_eq!(admit_checkpoint(&request, &lease(), &provider_result(2)), Ok(()));
    let state =
        checkpoint_payload(&request, Vec::new(), Vec::new(), Some(Vec::new())).expect("composes");
    let mut payload = Fixture::retained().payload();
    assert_eq!(payload.completed_tools.len(), state.completed_tools.len());
    payload.format_version = state.format_version;
    payload.checkpoint_kind = state.checkpoint_kind;
    payload.provider_turns = state.provider_turns;
    payload.total_tool_calls = state.total_tool_calls;
    payload.scope = state.scope;
    payload.rule_fingerprint = state.rule_fingerprint;
    payload.rule_usage = state.rule_usage;
    payload.correlation_id = state.correlation_id;
    assert_eq!(check_payload(&payload, &scope()), Ok(()));
    payload.rule_fingerprint.pop();
    assert_eq!(check_payload(&payload, &scope()), Err(AiError::Conflict));
}

#[test]
fn checkpointed_tools_are_distinct_and_transferable() {
    let tools = vec![completed_tool(0), completed_tool(1)];
    let prepared =
        prepare_checkpoint_tools(&tools, &expected_calls(2), None).expect("tools prepare");
    assert_eq!(prepared.len(), 2);
    assert_eq!(prepared[1].id, tool_uuid(1));
    assert_eq!(prepared[1].result_egress_manifest_hash, "manifest-1");
    let batch = Batch::new();
    let started = authority(policy(1), reference());
    let assemble = |request: &CheckpointRequest, current: &ContentAuthority, rules: &str| {
        assemble_checkpoint(
            CHECKPOINT_ID,
            request,
            &lease(),
            &provider_result(2),
            &started,
            current,
            rules,
            true,
            HASH.to_owned(),
        )
    };
    assert_eq!(
        assemble(&batch.request(), &authority(policy(2), reference()), &fingerprint()),
        Err(AiError::ReauthorizationFailed)
    );
    assert_eq!(
        assemble(&batch.request(), &started, "other"),
        Err(AiError::ReauthorizationFailed)
    );
    // What would not be admitted or prepared is not assembled either.
    let mut uncounted = batch.request();
    uncounted.provider_turns = 0;
    assert_eq!(
        assemble(&uncounted, &started, &fingerprint()),
        Err(AiError::Conflict)
    );
    let mut foreign = Batch::new();
    foreign.rules.target_scope = AiScope::new("tenant", "t2");
    let mut elsewhere = foreign.request();
    elsewhere.scope = AiScope::new("tenant", "t2");
    assert_eq!(
        assemble(&elsewhere, &started, &fingerprint()),
        Err(AiError::Forbidden)
    );
    let mut undisclosed = Batch::new();
    undisclosed.tools[1].egress_manifest = None;
    assert_eq!(
        assemble(&undisclosed.request(), &started, &fingerprint()),
        Err(AiError::EgressDenied)
    );
    let checkpoint =
        assemble(&batch.request(), &started, &fingerprint()).expect("assembles");
    assert_eq!(checkpoint.completed_tools, prepared);
    assert_eq!(checkpoint.checkpoint_kind, "tool_batch_persisted");
    assert_eq!(checkpoint.provider_kind, "openai");
    assert_eq!(checkpoint.completed_tools.len(), 2);

    let prepare = |tools: Vec<_>, continuation: Option<AiAgentContinuation>| {
        prepare_checkpoint_tools(&tools, &expected_calls(2), continuation.as_ref()).map(|_| ())
    };
    let mut repeated = completed_tool(1);
    repeated.egress_manifest = Some(manifest(1));
    repeated.id = tool_uuid(1);
    repeated.provider_call_id = call_id(0);
    assert_eq!(
        prepare(vec![completed_tool(0), repeated], None),
        Err(AiError::Conflict)
    );
    let mut hidden = completed_tool(1);
    hidden.egress_manifest = None;
    assert_eq!(
        prepare(vec![completed_tool(0), hidden], None),
        Err(AiError::EgressDenied)
    );
    let mut unrouted = completed_tool(0);
    unrouted.route_matches = false;
    assert_eq!(
        prepare(vec![unrouted, completed_tool(1)], None),
        Err(AiError::EgressDenied)
    );
    let mut valueless = completed_tool(0);
    valueless.checkpoint_value = None;
    assert_eq!(
        prepare(vec![valueless, completed_tool(1)], None),
        Err(AiError::EgressDenied)
    );
    // A replayed transfer cannot repeat a current one, and must name a tool.
    let replay = |index| {
        let mut continuation = Fixture::retained().continuation();
        continuation
            .replay_transfers
            .push(RoutedTransfer { manifest: manifest(index), route_matches: true });
        continuation
    };
    let both = || vec![completed_tool(0), completed_tool(1)];
    assert_eq!(prepare(both(), Some(replay(2))), Ok(()));
    assert_eq!(prepare(both(), Some(replay(1))), Err(AiError::EgressDenied));
    let mut unnamed = replay(2);
    unnamed.replay_transfers[0].manifest.sources[0].reference = "tool".to_owned();
    assert_eq!(prepare(both(), Some(unnamed)), Err(AiError::EgressDenied));
}

#[test]
fn checkpoint_state_is_bounded() {
    let limits = AiCoordinatorCheckpointLimits::new(67_108_864, Duration::seconds(3_600))
        .expect("limits validate");
    assert_eq!(limits.maximum_state_bytes(), 67_108_864);
    assert_eq!(limits.maximum_principal_age(), Duration::seconds(3_600));
    let refused =
        Err(AiError::InvalidConfiguration("invalid coordinator-checkpoint limits".to_owned()));
    assert_eq!(AiCoordinatorCheckpointLimits::new(0, Duration::seconds(1)), refused);
    assert_eq!(AiCoordinatorCheckpointLimits::new(67_108_865, Duration::seconds(1)), refused);
    assert_eq!(AiCoordinatorCheckpointLimits::new(1, Duration::seconds(3_601)), refused);
    assert_eq!(AiCoordinatorCheckpointLimits::new(1, Duration::seconds(0)), refused);
    assert_eq!(enforce_size(b"12", 2), Ok(()));
    assert_eq!(
        enforce_size(b"123", 2),
        Err(AiError::InvalidInput("coordinator checkpoint exceeds deployment limit".to_owned()))
    );
    let authority = authority(policy(1), reference());
    assert_eq!(checkpoint_context(CHECKPOINT_ID, &authority).field(), "protected_state");
    let context = tool_call_context(tool_uuid(0), ToolCallField::Result, &authority);
    assert_eq!(context.row_id(), "00000000-0000-0000-0000-000000000070");
    assert_eq!(context.field(), "protected_result");
}
