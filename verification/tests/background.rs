//! One background response from its submission to its terminal commit.

use graphql_orm_ai::access::{
    AiContentProtectionMode, AiContentProtectionPolicy, AiRunLease, AiRunState,
};
use graphql_orm_ai::background::claim::{
    AiOpenAiBackgroundReconciliationClaim, ClaimPlan, MatchedBackgroundReceipt,
    claim_from_records, claim_once, filter_time, finish_heartbeat, heartbeat_once,
};
use graphql_orm_ai::background::graph::{
    ClaimGraphSnapshot, load_background_claim_graph, validate_claimable_submission,
    validate_expired_submission,
};
use graphql_orm_ai::background::identity::{
    background_terminal_identity, request_hash, submission_identity,
};
use graphql_orm_ai::background::limits::{
    AiOpenAiBackgroundReconciliationLimits, AiOpenAiBackgroundReconciliationWindows,
    AiOpenAiBackgroundRetrievalLimits, AiOpenAiBackgroundRetrievalRoute, background_retry_delay,
    heartbeat_delay, retrieval_timeout, validate_terminal_principal_age,
};
use graphql_orm_ai::background::output::{
    OutputSnapshot, PreparedOutputBlock, PreparedProviderOutput, output_preparation,
};
use graphql_orm_ai::background::receipts::{
    ReceiptCandidate, ReceiptMatch, ReceiptState, background_receipt_query,
    confirm_receipt_settled, match_background_receipt,
};
use graphql_orm_ai::background::reconcile::{
    ExpiredCandidate, ReleaseCause, ReleaseSnapshot, ReleaseStep, backoff_eligibility,
    chosen_eligibility, close_expired_once, release_claim, require_nonterminal,
};
use graphql_orm_ai::background::retrieval::{
    AiOpenAiBackgroundRetrievalAttempt, AiOpenAiBackgroundRetrievalObservation,
    ProviderBackgroundObservation, ProviderBackgroundUsage, ProviderError, RetrievalReply,
    RetrievalSnapshot, RetrievePhase, bind_retrieval_egress, classify_reply, finish_binding,
    handle_retrieval_failure_once, release_nonterminal_once, require_current_access,
    require_current_authority, require_observation, require_route, retrieval_manifest,
    validate_retrieval_claim,
};
use graphql_orm_ai::background::rows::{
    AiProviderBackgroundSubmissionRecord, AiProviderWebhookReceiptRecord, AiRunAttemptOutcomeRecord,
    AiRunAttemptRecord, AiUsageEntryRecord,
};
use graphql_orm_ai::background::state::{
    BackgroundReason, BackgroundSubmissionState, ProviderBackgroundStatus, map_terminal_status,
    valid_provider_status, valid_response_id, valid_sha256_hex,
};
use graphql_orm_ai::background::submission::{
    AiOpenAiBackgroundSubmission, BackgroundCallPlan, BackgroundModelRequest,
    PrepareSnapshot, PreparedBackgroundSubmission,
    ProviderBackgroundSubmission, accept_once, admit_acknowledgement, close_ambiguity_once,
    confirm_ambiguity_closed, prepare_once, prepare_submission, renewed_expiry, validate_plan,
};
use graphql_orm_ai::background::submit::{BackgroundSubmit, SubmitAction, SubmitEvent};
use graphql_orm_ai::background::terminal::{
    AiOpenAiBackgroundTerminalOutcome, CommitPhase, CommitSnapshot, ReplaySnapshot,
    TerminalCommit, TerminalStep, admit_terminal_observation, check_settled_usage, commit_once,
    confirm_terminal_row, require_unchanged_policy, validate_existing_background_terminal,
};
use graphql_orm_ai::budget::amounts::{AiBudgetAmounts, StoredAmounts};
use graphql_orm_ai::budget::reservation::AiBudgetReservationRequest;
use graphql_orm_ai::budget::rows::{
    AiBudgetCounterRecord, AiBudgetReservationRecord, StoredActual,
};
use graphql_orm_ai::checkpoints::continuation::ModelInputBlock;
use graphql_orm_ai::clock::{Duration, UtcTime};
use graphql_orm_ai::digest::Uuid;
use graphql_orm_ai::egress::{
    AiDataSourceRef, AiDestinationTrust, AiEgressCapability, AiEgressDecision,
    AiEgressEventRecord, AiEgressManifest, AiEgressOutcome, AiEgressReason, AiSourceTrust,
};
use graphql_orm_ai::error::{AiError, OrmErrorCode};
use graphql_orm_ai::principal::{
    AiScope, AuthPrincipal, PrincipalReference, PrincipalReferenceKind, ResolvedPrincipal,
};
use graphql_orm_ai::provider::{DataClassification, ProviderKind};
use graphql_orm_ai::provider_result::{ModelContinuationMode, ProviderEvent};
use graphql_orm_ai::records::{AiRunRecord, AiSessionRecord};

const NOW: i64 = 1_700_000_000;
const BUDGET_ID: Uuid = 0xb1;
const EGRESS_ID: Uuid = 0xe1;
const RETRIEVAL_ID: Uuid = 0xe2;
const SUBMISSION_ID: Uuid = 0xa09a2c643ebf273f66174ee87b2e0274;
const RESPONSE_ID: &str = "resp_abc123";
const RETENTION: &str = "provider_response";

fn at(second: i64) -> UtcTime {
    UtcTime::from_unix_timestamp(second).expect("test instants are calendar instants")
}

fn manifest_hash() -> String {
    "ab".repeat(32)
}

fn scope() -> AiScope {
    AiScope::new("tenant", "t1").with_tenant_id("t1")
}

fn reference() -> PrincipalReference {
    PrincipalReference {
        kind: PrincipalReferenceKind::UserSession,
        subject: "u1".to_owned(),
        tenant_id: Some("t1".to_owned()),
        expires_at: None,
        encoding: "{}".to_owned(),
    }
}

fn lease() -> AiRunLease {
    AiRunLease {
        session_id: 1,
        run_id: 2,
        attempt_id: 3,
        lease_generation: 4,
        state: AiRunState::Running,
        principal_reference: reference(),
        latest_checkpoint_id: None,
    }
}

fn session() -> AiSessionRecord {
    AiSessionRecord {
        id: 1,
        owner_principal_kind: "user".to_owned(),
        owner_subject: "u1".to_owned(),
        tenant_id: Some("t1".to_owned()),
        scope_kind: "tenant".to_owned(),
        scope_id: "t1".to_owned(),
        state: "active".to_owned(),
        stream_head: 5,
        message_head: 7,
        deleted_at: None,
        row_version: 9,
    }
}

fn run(state: &str) -> AiRunRecord {
    let running = state == "running";
    AiRunRecord {
        id: 2,
        session_id: 1,
        principal_reference: Some(reference()),
        state: state.to_owned(),
        attempt_id: Some(3),
        lease_owner: running.then_some("worker".to_owned()),
        lease_generation: 4,
        lease_expires_at: running.then_some(NOW + 60),
        lease_heartbeat_at: running.then_some(NOW),
        retry_count: 0,
        next_attempt_at: None,
        error_code: None,
        latest_checkpoint_id: None,
        input_message_id: 0x33,
        row_version: 6,
    }
}

fn manifest() -> AiEgressManifest {
    AiEgressManifest {
        provider_profile_id: "profile".to_owned(),
        provider_kind: "openai".to_owned(),
        model: "gpt-test".to_owned(),
        destination: "provider".to_owned(),
        destination_trust: AiDestinationTrust::ManagedProvider,
        capability: AiEgressCapability::ModelInference,
        scope: scope(),
        session_id: Some(1),
        run_id: Some(2),
        sources: vec![AiDataSourceRef {
            kind: "message".to_owned(),
            reference: "m1".to_owned(),
            classification: DataClassification::Confidential,
            trust: AiSourceTrust::UserProvided,
        }],
        estimated_bytes: 100,
        estimated_tokens: 50,
        attachment_count: 0,
        purpose: "chat".to_owned(),
        retention: RETENTION.to_owned(),
        residency: None,
        policy_version: "v1".to_owned(),
        consent_reference: None,
        maximum_classification: DataClassification::Confidential,
        stable_hash: manifest_hash(),
    }
}

fn call_plan() -> BackgroundCallPlan {
    BackgroundCallPlan {
        provider_kind: ProviderKind::OpenAi,
        request: BackgroundModelRequest {
            model: "gpt-test".to_owned(),
            continuation_mode: ModelContinuationMode::ProviderRetained,
            continues: false,
            tool_count: 0,
            builtin_tool_count: 0,
            maximum_output_tokens: Some(256),
            input: vec![ModelInputBlock::Other { encoding: b"{}".to_vec() }],
            encoding: b"{\"model\":\"gpt-test\"}".to_vec(),
        },
        budget: AiBudgetReservationRequest {
            scope: scope(),
            session_id: 1,
            run_id: 2,
            attempt_id: 3,
            lease_generation: 4,
            provider_kind: ProviderKind::OpenAi,
            model: "gpt-test".to_owned(),
            pricing_policy_version: "v1".to_owned(),
            estimate: amounts(10, 256),
            idempotency_key: "key".to_owned(),
            expires_at: at(NOW + 600),
        },
        transfers: vec![manifest()],
    }
}

fn amounts(input_tokens: u64, output_tokens: u64) -> AiBudgetAmounts {
    AiBudgetAmounts {
        input_tokens,
        output_tokens,
        tool_units: 0,
        image_units: 0,
        cost_microunits: 5,
        runs: 1,
    }
}

fn budget(state: &str) -> AiBudgetReservationRecord {
    AiBudgetReservationRecord {
        id: BUDGET_ID,
        budget_counter_ids: Some(vec![0xc1]),
        scope_kind: "tenant".to_owned(),
        scope_id: "t1".to_owned(),
        tenant_id: Some("t1".to_owned()),
        principal_kind: "user".to_owned(),
        principal_subject: "u1".to_owned(),
        session_id: 1,
        run_id: 2,
        attempt_id: 3,
        lease_generation: 4,
        provider_kind: "openai".to_owned(),
        provider_model: "gpt-test".to_owned(),
        pricing_policy_version: "v1".to_owned(),
        reserved: StoredAmounts {
            input_tokens: 10,
            output_tokens: 256,
            tool_units: 0,
            image_units: 0,
            cost_microunits: 20,
            runs: 1,
        },
        actual: StoredActual {
            input_tokens: None,
            output_tokens: None,
            tool_units: None,
            image_units: None,
            cost_microunits: None,
            runs: None,
        },
        actual_cached_input_tokens: None,
        idempotency_key: "key".to_owned(),
        state: state.to_owned(),
        expires_at: NOW + 600,
        reconciled_at: (state == "uncertain").then_some(NOW),
        row_version: 2,
    }
}

fn counter() -> AiBudgetCounterRecord {
    AiBudgetCounterRecord {
        id: 0xc1,
        budget_policy_id: 0xd1,
        policy_version: 1,
        period_key: "day".to_owned(),
        period_started_at: 0,
        period_ends_at: NOW + 86_400,
        reserved: StoredAmounts {
            input_tokens: 10,
            output_tokens: 256,
            tool_units: 0,
            image_units: 0,
            cost_microunits: 20,
            runs: 1,
        },
        committed: StoredAmounts {
            input_tokens: 100,
            output_tokens: 100,
            tool_units: 0,
            image_units: 0,
            cost_microunits: 100,
            runs: 3,
        },
        row_version: 8,
    }
}

fn egress(id: Uuid, hash: String, bytes: i64, tokens: i64) -> AiEgressEventRecord {
    AiEgressEventRecord {
        id,
        run_id: Some(2),
        principal_subject: "u1".to_owned(),
        scope_kind: "tenant".to_owned(),
        scope_id: "t1".to_owned(),
        manifest_hash: hash,
        destination: "provider".to_owned(),
        capability: "model_inference".to_owned(),
        classification: "confidential".to_owned(),
        outcome: "allow".to_owned(),
        reason_code: "allowed".to_owned(),
        policy_version: "v1".to_owned(),
        estimated_bytes: bytes,
        estimated_tokens: tokens,
    }
}

fn prepared() -> PreparedBackgroundSubmission {
    let plan = call_plan();
    prepare_submission(
        &lease(),
        &plan,
        request_hash(&plan.request.encoding),
        BUDGET_ID,
        EGRESS_ID,
        manifest_hash(),
    )
    .expect("the submission is identified")
}

fn prepare_snapshot() -> PrepareSnapshot {
    PrepareSnapshot {
        run: run("running"),
        session: Some(session()),
        budget: Some(budget("reserved")),
        egress: Some(egress(EGRESS_ID, manifest_hash(), 100, 50)),
    }
}

fn prepared_row() -> AiProviderBackgroundSubmissionRecord {
    prepare_once(&prepare_snapshot(), &lease(), &prepared(), at(NOW), at(NOW + 60))
        .expect("the binding is durable")
        .submission
}

fn acknowledgement() -> ProviderBackgroundSubmission {
    ProviderBackgroundSubmission {
        response_id: RESPONSE_ID.to_owned(),
        status: "queued".to_owned(),
        created_at: NOW - 2,
        provider_model: "gpt-test".to_owned(),
        maximum_output_tokens: 256,
        provider_store: false,
    }
}

fn deadline() -> i64 {
    let windows = AiOpenAiBackgroundReconciliationWindows::default();
    admit_acknowledgement(&acknowledgement(), &prepared(), at(NOW), windows)
        .expect("the acknowledgement is admitted")
}

/// The row as the store holds it after its given number of writes.
fn stored(
    mut row: AiProviderBackgroundSubmissionRecord,
    row_version: i64,
) -> AiProviderBackgroundSubmissionRecord {
    row.row_version = row_version;
    row
}

fn waiting_row() -> AiProviderBackgroundSubmissionRecord {
    let plan = accept_once(
        &run("running"),
        &Some(prepared_row()),
        &lease(),
        &prepared(),
        &acknowledgement(),
        deadline(),
        at(NOW),
    )
    .expect("the acknowledgement is bound");
    stored(plan.submission.next, 1)
}

fn limits() -> AiOpenAiBackgroundReconciliationLimits {
    AiOpenAiBackgroundReconciliationLimits::new(
        Duration::seconds(60),
        Duration::seconds(60),
        16,
        3,
        4,
    )
    .expect("limits validate")
}

fn graph(bound: bool) -> ClaimGraphSnapshot {
    ClaimGraphSnapshot {
        run: Some(run("waiting_provider")),
        session: Some(session()),
        attempts: vec![AiRunAttemptRecord {
            id: 3,
            run_id: 2,
            lease_generation: 4,
            worker_id: "worker".to_owned(),
            claimed_at: NOW - 10,
            finished_at: None,
            provider_response_id: None,
            outcome_code: None,
        }],
        attempt_worker_valid: true,
        budget: Some(budget("uncertain")),
        egress_events: vec![egress(EGRESS_ID, manifest_hash(), 100, 50)],
        retrieval_events: if bound { vec![retrieval_event()] } else { Vec::new() },
        outcomes: Vec::new(),
    }
}

fn claim_plan(
    row: AiProviderBackgroundSubmissionRecord,
    worker: &str,
    second: i64,
) -> Result<Option<ClaimPlan>, OrmErrorCode> {
    claim_once(&vec![row], &graph(false), worker, at(second), limits(), true)
}

fn claimed_row() -> AiProviderBackgroundSubmissionRecord {
    let plan = claim_plan(waiting_row(), "reconciler", NOW)
        .expect("the claim is planned")
        .expect("the submission is due");
    stored(plan.submission.next, 2)
}

fn claim() -> AiOpenAiBackgroundReconciliationClaim {
    let plan = claim_plan(waiting_row(), "reconciler", NOW)
        .expect("the claim is planned")
        .expect("the submission is due");
    claim_from_records(&claimed_row(), plan.graph, None).expect("the claim is read")
}

fn route() -> AiOpenAiBackgroundRetrievalRoute {
    AiOpenAiBackgroundRetrievalRoute::new(
        "profile".to_owned(),
        "provider".to_owned(),
        "v1".to_owned(),
    )
    .expect("the route is usable")
}

fn retrieval_hash() -> String {
    "cd".repeat(32)
}

fn retrieval_transfer() -> AiEgressManifest {
    retrieval_manifest(
        &claim(),
        &route(),
        "source".to_owned(),
        RETENTION,
        retrieval_hash(),
    )
}

fn retrieval_decision() -> AiEgressDecision {
    AiEgressDecision {
        id: RETRIEVAL_ID,
        manifest_hash: retrieval_hash(),
        principal_subject: "u1".to_owned(),
        outcome: AiEgressOutcome::Allow,
        reason: AiEgressReason::Allowed,
        policy_version: "v1".to_owned(),
    }
}

fn retrieval_event() -> AiEgressEventRecord {
    egress(RETRIEVAL_ID, retrieval_hash(), RESPONSE_ID.len() as i64, 0)
}

fn bound_row() -> AiProviderBackgroundSubmissionRecord {
    let snapshot = RetrievalSnapshot {
        current: Some(claimed_row()),
        graph: graph(false),
        egress: vec![retrieval_event()],
    };
    let plan = bind_retrieval_egress(
        &snapshot,
        &claim(),
        &retrieval_transfer(),
        &retrieval_decision(),
        at(NOW + 1),
    )
    .expect("the transfer is bound");
    stored(plan.submission.next, 3)
}

fn bound_claim() -> AiOpenAiBackgroundReconciliationClaim {
    finish_binding(claim(), &bound_row(), RETRIEVAL_ID, at(NOW + 1)).expect("the claim is bound")
}

fn observation(status: ProviderBackgroundStatus) -> AiOpenAiBackgroundRetrievalObservation {
    let answer = ProviderBackgroundObservation {
        status,
        events: vec![ProviderEvent::TextDelta { text: "answer".to_owned() }],
        usage: status.is_terminal().then_some(ProviderBackgroundUsage {
            input_tokens: 8,
            cached_input_tokens: 2,
            output_tokens: 30,
        }),
    };
    let attempt = classify_reply(bound_claim(), RetrievalReply::Answered(answer));
    require_observation(attempt).expect("the provider answered")
}

fn release_snapshot(bound: bool) -> ReleaseSnapshot {
    ReleaseSnapshot {
        current: Some(if bound { bound_row() } else { claimed_row() }),
        graph: graph(bound),
        matched: Vec::new(),
    }
}

#[test]
fn identities_are_derived_from_the_exact_request() {
    let plan = call_plan();
    let hash = request_hash(&plan.request.encoding);
    assert_eq!(hash, "24c684c4580f26817e1b77cf196712e2bfb17dcbfbe3bae8ca45052d06654028");
    let (key, id) = submission_identity(
        &lease(),
        "profile",
        "gpt-test",
        &hash,
        BUDGET_ID,
        &manifest_hash(),
    );
    assert_eq!(key, "a09a2c643ebf273f66174ee87b2e02741bfc7f13ebbad5bb6355c61b16cd8b7c");
    assert_eq!(id, SUBMISSION_ID);
    let (other, _) = submission_identity(
        &lease(),
        "profile",
        "gpt-test",
        &hash,
        0xb2,
        &manifest_hash(),
    );
    assert_ne!(other, key);
    assert_eq!(
        background_terminal_identity(id, "assistant-message"),
        0x1545bfd00b9b77fad6fb55910a9a0b59
    );
    assert_ne!(
        background_terminal_identity(id, "assistant-message"),
        background_terminal_identity(id, "session-event")
    );
}

#[test]
fn only_plain_retained_requests_are_submitted() {
    assert_eq!(validate_plan(&lease(), &call_plan(), RETENTION), Ok(()));
    let refused = |change: &dyn Fn(&mut BackgroundCallPlan)| {
        let mut plan = call_plan();
        change(&mut plan);
        assert_eq!(validate_plan(&lease(), &plan, RETENTION), Err(AiError::Conflict));
    };
    refused(&|plan| plan.request.tool_count = 1);
    refused(&|plan| plan.provider_kind = ProviderKind::Anthropic);
    refused(&|plan| plan.request.continues = true);
    refused(&|plan| plan.request.continuation_mode = ModelContinuationMode::Stateless);
    refused(&|plan| plan.request.builtin_tool_count = 1);
    refused(&|plan| plan.request.maximum_output_tokens = None);
    refused(&|plan| {
        plan.request.input.push(ModelInputBlock::Attachment { encoding: b"{}".to_vec() })
    });
    refused(&|plan| plan.transfers[0].retention = "none".to_owned());
    refused(&|plan| plan.transfers.push(manifest()));
    refused(&|plan| plan.budget.lease_generation = 5);
}

#[test]
fn bindings_are_prepared_before_the_provider_is_called() {
    let now = at(NOW);
    let expiry = renewed_expiry(now, Duration::seconds(60)).expect("expiry");
    let plan = prepare_once(&prepare_snapshot(), &lease(), &prepared(), now, expiry)
        .expect("the binding is durable");
    assert_eq!(plan.submission.id, SUBMISSION_ID);
    assert_eq!(plan.submission.state, "prepared");
    assert_eq!(plan.submission.row_version, 0);
    assert_eq!(plan.renewal.lease_expires_at, NOW + 60);
    assert_eq!(plan.audit.action, "prepare_provider_background_submission");

    let fault = |change: &dyn Fn(&mut PrepareSnapshot)| {
        let mut snapshot = prepare_snapshot();
        change(&mut snapshot);
        prepare_once(&snapshot, &lease(), &prepared(), now, expiry).map(|_| ())
    };
    assert_eq!(
        fault(&|snapshot| snapshot.run = run("waiting_provider")),
        Err(OrmErrorCode::Conflict)
    );
    assert_eq!(fault(&|snapshot| snapshot.session = None), Err(OrmErrorCode::NotFound));
    assert_eq!(fault(&|snapshot| snapshot.budget = None), Err(OrmErrorCode::NotFound));
    assert_eq!(
        fault(&|snapshot| snapshot.budget = Some(budget("uncertain"))),
        Err(OrmErrorCode::Conflict)
    );
    assert_eq!(fault(&|snapshot| snapshot.egress = None), Err(OrmErrorCode::NotFound));
    assert_eq!(
        fault(&|snapshot| {
            snapshot.egress = Some(egress(EGRESS_ID, "other".to_owned(), 1, 1));
        }),
        Err(OrmErrorCode::Conflict)
    );
    let mut unbounded = prepared();
    unbounded.maximum_output_tokens = u64::MAX;
    assert_eq!(
        prepare_once(&prepare_snapshot(), &lease(), &unbounded, now, expiry).map(|_| ()),
        Err(OrmErrorCode::InvalidInput)
    );
}

#[test]
fn acknowledgements_park_the_run() {
    assert_eq!(deadline(), NOW - 2 + 300);
    let plan = accept_once(
        &run("running"),
        &Some(prepared_row()),
        &lease(),
        &prepared(),
        &acknowledgement(),
        deadline(),
        at(NOW),
    )
    .expect("the acknowledgement is bound");
    assert_eq!(plan.submission.expected_row_version, 0);
    assert_eq!(plan.submission.next.state, "waiting_provider");
    assert_eq!(plan.submission.next.reconciliation_next_attempt_at, Some(NOW));
    assert_eq!(plan.submission.next.reconciliation_deadline, Some(NOW + 298));
    assert_eq!(plan.run.state, AiRunState::WaitingProvider);
    assert_eq!(plan.run.error_code, None);
    let accepted =
        AiOpenAiBackgroundSubmission::accepted(&lease(), prepared(), acknowledgement());
    assert_eq!(accepted.submission_id(), SUBMISSION_ID);
    assert_eq!(accepted.provider_response_id(), RESPONSE_ID);
    assert!(!format!("{:?}", accepted.redacted()).contains(RESPONSE_ID));

    let refused = |change: &dyn Fn(&mut ProviderBackgroundSubmission), second| {
        let mut answer = acknowledgement();
        change(&mut answer);
        let windows = AiOpenAiBackgroundReconciliationWindows::default();
        admit_acknowledgement(&answer, &prepared(), at(second), windows).is_err()
    };
    assert!(refused(&|answer| answer.response_id = "abc".to_owned(), NOW));
    assert!(refused(&|answer| answer.status = "unknown".to_owned(), NOW));
    assert!(refused(&|answer| answer.provider_model = "other".to_owned(), NOW));
    assert!(refused(&|answer| answer.maximum_output_tokens = 1, NOW));
    assert!(refused(&|_| (), NOW + 298));
    assert_eq!(
        accept_once(
            &run("running"),
            &None,
            &lease(),
            &prepared(),
            &acknowledgement(),
            deadline(),
            at(NOW),
        )
        .map(|_| ()),
        Err(OrmErrorCode::NotFound)
    );
    // A binding resolves only once.
    assert_eq!(
        accept_once(
            &run("running"),
            &Some(waiting_row()),
            &lease(),
            &prepared(),
            &acknowledgement(),
            deadline(),
            at(NOW),
        )
        .map(|_| ()),
        Err(OrmErrorCode::Conflict)
    );
}

#[test]
fn uncertain_submissions_are_closed_for_recovery() {
    let reason = BackgroundReason::SubmissionOutcomeUncertain;
    let plan = close_ambiguity_once(
        &run("running"),
        &Some(prepared_row()),
        &lease(),
        &prepared(),
        reason,
    )
    .expect("the submission is closed");
    assert_eq!(plan.submission.next.state, "recovery_required");
    assert_eq!(
        plan.submission.next.safe_error_code.as_deref(),
        Some("provider_submission_outcome_uncertain")
    );
    assert_eq!(plan.run.state, AiRunState::RecoveryRequired);
    assert_eq!(confirm_ambiguity_closed(&plan.submission.next, reason), Ok(()));
    assert_eq!(
        confirm_ambiguity_closed(&prepared_row(), reason),
        Err(OrmErrorCode::InternalError)
    );
    assert_eq!(
        close_ambiguity_once(
            &run("running"),
            &Some(waiting_row()),
            &lease(),
            &prepared(),
            reason,
        )
        .map(|_| ()),
        Err(OrmErrorCode::Conflict)
    );
}

/// Runs a submission, letting the step with the given number fail.
fn drive(failing: Option<usize>) -> Vec<SubmitAction> {
    let (mut submit, mut action) =
        BackgroundSubmit::begin(&lease(), &call_plan(), RETENTION, true).expect("begins");
    let mut actions = Vec::new();
    let mut step = 0;
    loop {
        let ended = matches!(action, SubmitAction::Done | SubmitAction::Fail(_));
        let calling = matches!(action, SubmitAction::SubmitToProvider);
        actions.push(action);
        if ended {
            return actions;
        }
        if calling {
            assert!(submit.accepts(&SubmitEvent::LeaseRenewed));
            let (renewed, waiting) = submit.step(SubmitEvent::LeaseRenewed);
            assert_eq!(waiting, SubmitAction::AwaitProvider);
            submit = renewed;
        }
        let event = if failing == Some(step) {
            SubmitEvent::Failed(AiError::PersistenceFailed)
        } else {
            SubmitEvent::Succeeded
        };
        assert!(submit.accepts(&event));
        (submit, action) = submit.step(event);
        step += 1;
    }
}

#[test]
fn submissions_call_the_provider_once_and_settle_their_budget() {
    let actions = drive(None);
    assert_eq!(actions.last(), Some(&SubmitAction::Done));
    let position = |wanted: &SubmitAction| {
        actions.iter().position(|action| action == wanted).expect("the action is taken")
    };
    let prepared = position(&SubmitAction::Prepare);
    assert_eq!(actions[prepared + 1], SubmitAction::ResolveCurrent);
    assert_eq!(actions[prepared + 2], SubmitAction::CheckCurrent);
    assert_eq!(actions[prepared + 3], SubmitAction::MarkUncertain);
    assert_eq!(actions[prepared + 4], SubmitAction::SubmitToProvider);
    assert!(position(&SubmitAction::CheckCurrent) < prepared);
    for failing in 0..17 {
        let actions = drive(Some(failing));
        let calls =
            actions.iter().filter(|action| **action == SubmitAction::SubmitToProvider).count();
        assert!(calls <= 1);
        assert!(matches!(actions.last(), Some(SubmitAction::Fail(_))));
        let released =
            actions.iter().any(|action| matches!(action, SubmitAction::ReleaseBudget { .. }));
        let closed =
            actions.iter().any(|action| matches!(action, SubmitAction::CloseAmbiguity(_)));
        // A call that may have reached the provider is never released.
        assert!(!(calls == 1 && released));
        assert_eq!(calls == 1, closed && !released);
    }
    assert_eq!(
        BackgroundSubmit::begin(&lease(), &call_plan(), RETENTION, false).map(|_| ()),
        Err(AiError::RuntimeNotReady)
    );
}

#[test]
fn claims_fence_one_worker_at_a_time() {
    let claim = claim();
    assert_eq!(claim.submission_id(), SUBMISSION_ID);
    assert_eq!(claim.worker_id(), "reconciler");
    assert_eq!(claim.reconciliation_generation(), 1);
    assert_eq!(claim.reconciliation_lease_expires_at(), at(NOW + 60));
    assert_eq!(claim.reconciliation_deadline(), at(NOW + 298));
    assert!(!format!("{:?}", claim.redacted()).contains(RESPONSE_ID));

    // While the claim lasts nobody else gets the row; afterwards it is
    // reclaimed under the next generation.
    assert_eq!(
        claim_plan(claimed_row(), "other", NOW + 30).map(|_| ()),
        Err(OrmErrorCode::InternalError)
    );
    let reclaimed =
        claim_plan(claimed_row(), "other", NOW + 60).expect("planned").expect("reclaimable");
    assert_eq!(reclaimed.submission.next.reconciliation_generation, 2);
    assert_eq!(reclaimed.audit.reason_code, "expired_reconciliation_reclaimed");
    let row = stored(reclaimed.submission.next, 3);
    assert_eq!(
        heartbeat_once(&Some(row), &claim, at(NOW + 59), Duration::seconds(60)).map(|_| ()),
        Err(OrmErrorCode::Conflict)
    );
    assert_eq!(
        claim_once(&Vec::new(), &graph(false), "other", at(NOW), limits(), true),
        Ok(None)
    );
    assert_eq!(filter_time(at(NOW)), Ok(NOW as i32));
    assert!(filter_time(at(1 << 32)).is_err());
}

#[test]
fn heartbeats_extend_a_claim_up_to_the_deadline() {
    let write =
        heartbeat_once(&Some(claimed_row()), &claim(), at(NOW + 30), Duration::seconds(60))
            .expect("renewed");
    assert_eq!(write.next.reconciliation_lease_expires_at, Some(NOW + 90));
    let renewed = finish_heartbeat(claim(), &stored(write.next, 3), at(NOW + 30)).expect("renewed");
    assert_eq!(renewed.reconciliation_lease_expires_at(), at(NOW + 90));
    let capped =
        heartbeat_once(&Some(claimed_row()), &claim(), at(NOW + 30), Duration::seconds(290))
            .expect("renewed");
    assert_eq!(capped.next.reconciliation_lease_expires_at, Some(NOW + 298));
    assert_eq!(
        heartbeat_once(&None, &claim(), at(NOW + 30), Duration::seconds(60)).map(|_| ()),
        Err(OrmErrorCode::NotFound)
    );
    assert_eq!(
        heartbeat_once(&Some(claimed_row()), &claim(), at(NOW + 60), Duration::seconds(60))
            .map(|_| ()),
        Err(OrmErrorCode::Conflict)
    );
}

#[test]
fn claims_need_an_intact_graph() {
    assert!(load_background_claim_graph(&graph(false), &waiting_row()).is_ok());
    let fault = |change: &dyn Fn(&mut ClaimGraphSnapshot)| {
        let mut snapshot = graph(false);
        change(&mut snapshot);
        load_background_claim_graph(&snapshot, &waiting_row()).map(|_| ())
    };
    assert_eq!(fault(&|snapshot| snapshot.run = None), Err(OrmErrorCode::NotFound));
    assert_eq!(fault(&|snapshot| snapshot.session = None), Err(OrmErrorCode::NotFound));
    assert_eq!(fault(&|snapshot| snapshot.budget = None), Err(OrmErrorCode::NotFound));
    let broken = Err(OrmErrorCode::InternalError);
    assert_eq!(fault(&|snapshot| snapshot.run = Some(run("running"))), broken);
    assert_eq!(fault(&|snapshot| snapshot.budget = Some(budget("reserved"))), broken);
    assert_eq!(fault(&|snapshot| snapshot.attempts = Vec::new()), broken);
    assert_eq!(fault(&|snapshot| snapshot.egress_events = Vec::new()), broken);
    assert_eq!(fault(&|snapshot| snapshot.attempt_worker_valid = false), broken);
    assert_eq!(
        fault(&|snapshot| snapshot.egress_events[0].classification = "other".to_owned()),
        broken
    );

    assert_eq!(validate_claimable_submission(&waiting_row(), at(NOW), 3, true), Ok(()));
    assert_eq!(
        validate_claimable_submission(&waiting_row(), at(NOW + 298), 3, true),
        Err(OrmErrorCode::InternalError)
    );
    assert_eq!(
        validate_expired_submission(&waiting_row(), at(NOW), 3, true),
        Err(OrmErrorCode::InternalError)
    );
    assert_eq!(validate_expired_submission(&waiting_row(), at(NOW + 298), 3, true), Ok(()));
    let mut forged = waiting_row();
    forged.request_hash = "ef".repeat(32);
    assert_eq!(
        validate_claimable_submission(&forged, at(NOW), 3, true),
        Err(OrmErrorCode::InternalError)
    );
}

#[test]
fn released_claims_can_be_taken_again_later() {
    let now = at(NOW + 1);
    let eligible = backoff_eligibility(0, now, limits()).expect("eligibility");
    assert_eq!(eligible, at(NOW + 2));
    let release = |snapshot: &ReleaseSnapshot, eligible_at, maximum_retries| {
        release_claim(
            snapshot,
            &claim(),
            ReleaseCause::BeforeRetrieval,
            now,
            eligible_at,
            maximum_retries,
        )
    };
    let plan = match release(&release_snapshot(false), eligible, 3) {
        Ok(ReleaseStep::Release(plan)) => plan,
        other => panic!("unexpected step: {other:?}"),
    };
    assert_eq!(plan.submission.next.state, "waiting_provider");
    assert_eq!(plan.submission.next.reconciliation_retry_count, 1);
    assert_eq!(plan.submission.next.reconciliation_generation, 1);
    assert_eq!(plan.audit.reason_code, "worker_relinquished_before_retrieval");
    let again = claim_plan(stored(plan.submission.next, 3), "other", NOW + 2)
        .expect("planned")
        .expect("due again");
    assert_eq!(again.submission.next.reconciliation_generation, 2);
    assert_eq!(again.audit.reason_code, "eligible_submission_claimed");

    // Without retries or time left the run is closed for recovery.
    let closed = |step| match step {
        Ok(ReleaseStep::Close(plan)) => {
            (plan.submission.next.safe_error_code, plan.run.state, plan.outcome.final_state)
        }
        other => panic!("unexpected step: {other:?}"),
    };
    assert_eq!(
        closed(release(&release_snapshot(false), eligible, 0)),
        (
            Some("provider_response_retry_exhausted".to_owned()),
            AiRunState::RecoveryRequired,
            "recovery_required".to_owned()
        )
    );
    assert_eq!(
        closed(release(&release_snapshot(false), at(NOW + 298), 3)).0.as_deref(),
        Some("provider_response_deadline_exhausted")
    );
    let mut gone = release_snapshot(false);
    gone.current = None;
    assert_eq!(release(&gone, eligible, 3), Err(OrmErrorCode::NotFound));
    assert_eq!(
        release_claim(
            &release_snapshot(false),
            &claim(),
            ReleaseCause::Failure(BackgroundReason::RetrievalTimeout),
            now,
            eligible,
            3,
        ),
        Err(OrmErrorCode::Conflict)
    );
    assert_eq!(chosen_eligibility(Duration::seconds(5), now, limits()), Ok(at(NOW + 6)));
    assert!(chosen_eligibility(Duration::seconds(61), now, limits()).is_err());
    assert!(chosen_eligibility(Duration::seconds(0), now, limits()).is_err());
    assert_eq!(require_nonterminal(ProviderBackgroundStatus::Queued), Ok(()));
    assert!(require_nonterminal(ProviderBackgroundStatus::Completed).is_err());
}

#[test]
fn expired_submissions_are_swept_into_recovery() {
    let candidate = || ExpiredCandidate {
        submission: waiting_row(),
        owner_valid: true,
        graph: graph(false),
        matched: Vec::new(),
    };
    let plans = close_expired_once(&vec![candidate()], at(NOW + 298), 3).expect("swept");
    assert_eq!(plans.len(), 1);
    assert_eq!(
        plans[0].submission.next.safe_error_code.as_deref(),
        Some("provider_response_deadline_expired")
    );
    assert_eq!(plans[0].outcome.worker_id, "worker");
    assert_eq!(plans[0].outcome.finished_at, NOW + 298);
    assert_eq!(
        close_expired_once(&vec![candidate()], at(NOW), 3),
        Err(OrmErrorCode::InternalError)
    );
    assert_eq!(close_expired_once(&Vec::new(), at(NOW), 3), Ok(Vec::new()));
}

#[test]
fn retrievals_bind_their_egress_first() {
    assert_eq!(require_route(&claim(), &route()), Ok(()));
    let elsewhere = AiOpenAiBackgroundRetrievalRoute::new(
        "profile".to_owned(),
        "elsewhere".to_owned(),
        "v1".to_owned(),
    )
    .expect("the route is usable");
    assert!(require_route(&claim(), &elsewhere).is_err());
    let transfer = retrieval_transfer();
    assert_eq!(transfer.purpose, "background_response_retrieval");
    assert_eq!(transfer.estimated_bytes, RESPONSE_ID.len() as u64);
    assert_eq!(transfer.maximum_classification, DataClassification::Confidential);
    assert_eq!(
        validate_retrieval_claim(&Some(claimed_row()), &graph(false), &claim(), at(NOW + 1)),
        Ok(())
    );
    assert_eq!(bound_row().retrieval_egress_decision_id, Some(RETRIEVAL_ID));
    assert_eq!(bound_claim().details().retrieval_egress_decision_id, Some(RETRIEVAL_ID));

    let bind = |current, graph, claim: &AiOpenAiBackgroundReconciliationClaim, events| {
        let snapshot = RetrievalSnapshot { current, graph, egress: events };
        bind_retrieval_egress(
            &snapshot,
            claim,
            &retrieval_transfer(),
            &retrieval_decision(),
            at(NOW + 1),
        )
        .map(|_| ())
    };
    let event = || vec![retrieval_event()];
    assert_eq!(
        bind(Some(claimed_row()), graph(false), &claim(), Vec::new()),
        Err(OrmErrorCode::InternalError)
    );
    let mut denied = retrieval_event();
    denied.outcome = "deny".to_owned();
    assert_eq!(
        bind(Some(claimed_row()), graph(false), &claim(), vec![denied]),
        Err(OrmErrorCode::Conflict)
    );
    assert_eq!(bind(None, graph(false), &claim(), event()), Err(OrmErrorCode::NotFound));
    // A bound claim retrieves only once.
    assert_eq!(
        bind(Some(bound_row()), graph(true), &bound_claim(), event()),
        Err(OrmErrorCode::Conflict)
    );

    let mut phase = RetrievePhase::begin(true).expect("begins");
    let mut phases = vec![phase];
    while phase != RetrievePhase::Finished {
        phase = phase.step(Ok(())).expect("steps");
        phases.push(phase);
    }
    let place = |wanted| phases.iter().position(|phase| *phase == wanted).expect("visited");
    assert!(place(RetrievePhase::BindingEgress) < place(RetrievePhase::Calling));
    assert_eq!(RetrievePhase::begin(false), Err(AiError::RuntimeNotReady));
    assert_eq!(
        RetrievePhase::AuthorizingEgress.step(Err(AiError::EgressDenied)),
        Err(AiError::EgressDenied)
    );
}

#[test]
fn retrieval_failures_are_retried_or_closed() {
    let classify = |reply| classify_reply(bound_claim(), reply);
    let retryable = |attempt| match attempt {
        AiOpenAiBackgroundRetrievalAttempt::Retryable(failure) => failure,
        _ => panic!("the failure is retryable"),
    };
    let timeout = retryable(classify(RetrievalReply::TimedOut));
    assert_eq!(timeout.safe_error_code(), "provider_response_retrieval_timeout");
    let limited = retryable(classify(RetrievalReply::Failed(ProviderError::RateLimited)));
    assert_eq!(limited.safe_error_code(), "provider_response_retrieval_rate_limited");
    let closed = |error| match classify(RetrievalReply::Failed(error)) {
        AiOpenAiBackgroundRetrievalAttempt::RecoveryRequired(failure) => failure,
        _ => panic!("the failure needs recovery"),
    };
    assert_eq!(
        closed(ProviderError::CredentialUnavailable).safe_error_code(),
        "provider_response_credential_unavailable"
    );
    assert_eq!(
        closed(ProviderError::Rejected).safe_error_code(),
        "provider_response_retrieval_rejected"
    );

    let now = at(NOW + 2);
    let released = handle_retrieval_failure_once(
        &release_snapshot(true),
        &timeout,
        now,
        Some(at(NOW + 3)),
        3,
    );
    match released {
        Ok(ReleaseStep::Release(plan)) => {
            assert_eq!(plan.submission.next.state, "waiting_provider");
            assert_eq!(plan.submission.next.retrieval_egress_decision_id, None);
            assert_eq!(plan.audit.reason_code, "provider_response_retrieval_timeout");
        }
        other => panic!("unexpected step: {other:?}"),
    }
    match handle_retrieval_failure_once(
        &release_snapshot(true),
        &closed(ProviderError::Rejected),
        now,
        None,
        3,
    ) {
        Ok(ReleaseStep::Close(plan)) => {
            assert_eq!(plan.run.error_code, Some(BackgroundReason::RetrievalRejected));
        }
        other => panic!("unexpected step: {other:?}"),
    }
    match release_nonterminal_once(
        &release_snapshot(true),
        &observation(ProviderBackgroundStatus::InProgress),
        now,
        at(NOW + 3),
        3,
    ) {
        Ok(ReleaseStep::Release(plan)) => {
            assert_eq!(plan.submission.next.provider_status.as_deref(), Some("in_progress"));
        }
        other => panic!("unexpected step: {other:?}"),
    }
}

#[test]
fn retrievals_need_current_authority() {
    let policy = |ready| AiContentProtectionPolicy {
        scope: scope(),
        mode: AiContentProtectionMode::DatabaseManaged,
        key_policy_reference: None,
        version: 1,
        ready,
    };
    let principal = ResolvedPrincipal {
        reference: reference(),
        principal: AuthPrincipal::User { subject: "u1".to_owned() },
        resolved_at: at(NOW),
    };
    let check = |now, scope_allowed, session_allowed, ready| {
        require_current_authority(
            &principal,
            now,
            Duration::seconds(60),
            scope_allowed,
            session_allowed,
            &policy(ready),
            &scope(),
        )
    };
    assert_eq!(check(at(NOW + 60), true, true, true), Ok(()));
    assert_eq!(check(at(NOW + 61), true, true, true), Err(AiError::ReauthorizationFailed));
    assert_eq!(check(at(NOW), false, true, true), Err(AiError::Forbidden));
    assert_eq!(check(at(NOW), true, false, true), Err(AiError::Forbidden));
    assert_eq!(check(at(NOW), true, true, false), Err(AiError::RuntimeNotReady));
    let access = |now, scope_allowed, session_allowed| {
        let age = Duration::seconds(60);
        require_current_access(&principal, now, age, scope_allowed, session_allowed)
    };
    assert_eq!(access(at(NOW + 60), true, true), Ok(()));
    assert_eq!(access(at(NOW + 61), false, true), Err(AiError::ReauthorizationFailed));
    assert_eq!(access(at(NOW), true, false), Err(AiError::Forbidden));
    assert_eq!(require_unchanged_policy(&policy(true), &policy(true)), Ok(()));
    assert!(require_unchanged_policy(&policy(true), &policy(false)).is_err());
}

fn receipt(kind: &str, state: ReceiptState, bound: bool) -> ReceiptCandidate {
    ReceiptCandidate {
        receipt: AiProviderWebhookReceiptRecord {
            id: 0xf1,
            receipt_key: "receipt-key".to_owned(),
            provider_kind: "openai".to_owned(),
            provider_profile_id: "profile".to_owned(),
            provider_event_id: "evt_1".to_owned(),
            provider_event_kind: kind.to_owned(),
            provider_created_at: NOW,
            provider_response_id: Some(RESPONSE_ID.to_owned()),
            run_id: bound.then_some(2),
            attempt_id: bound.then_some(3),
            signature_verified: true,
            state: state.as_str().to_owned(),
            safe_error_code: None,
            received_at: NOW,
            processed_at: None,
            row_version: 0,
        },
        expected_key: "receipt-key".to_owned(),
        expected_id: 0xf1,
    }
}

fn output() -> PreparedProviderOutput {
    let preparation = output_preparation(&bound_claim());
    PreparedProviderOutput {
        message_id: preparation.message_id,
        event_id: preparation.event_id,
        inbox_event_id: preparation.inbox_event_id,
        provider_kind: "openai".to_owned(),
        provider_model: preparation.provider_model,
        provider_response_id: Some(preparation.provider_response_id),
        budget_reservation_id: preparation.budget_reservation_id,
        correlation_id: preparation.correlation_id,
        checkpoint_hash: "checkpoint".to_owned(),
        blocks: vec![PreparedOutputBlock {
            id: 0x90,
            kind: "text".to_owned(),
            byte_count: 6,
            line_count: 1,
        }],
        expected_owner_principal_kind: preparation.owner_principal_kind,
        expected_owner_subject: preparation.owner_subject,
        expected_scope: preparation.scope,
    }
}

fn commit_snapshot() -> CommitSnapshot {
    CommitSnapshot {
        current: Some(bound_row()),
        graph: graph(true),
        matched: None,
        bound: Vec::new(),
        receipt: None,
        further: Vec::new(),
        counters: vec![Some(counter())],
        stream: None,
    }
}

fn actual() -> AiBudgetAmounts {
    amounts(8, 30)
}

#[test]
fn completed_responses_commit_once_and_replay() {
    let observed = observation(ProviderBackgroundStatus::Completed);
    assert!(admit_terminal_observation(&observed).is_ok());
    assert_eq!(
        check_settled_usage(actual(), observed.usage().expect("usage")),
        Ok(())
    );
    let step = commit_once(
        &commit_snapshot(),
        &observed,
        &Some(output()),
        actual(),
        "checkpoint",
        at(NOW + 2),
    )
    .expect("commits");
    let plan = match step {
        TerminalStep::Commit(plan) => plan,
        other => panic!("unexpected step: {other:?}"),
    };
    let message_id = background_terminal_identity(SUBMISSION_ID, "assistant-message");
    assert_eq!(
        plan.graph.result,
        AiOpenAiBackgroundTerminalOutcome::Completed { message_id }
    );
    assert_eq!(plan.budget.counters[0].reserved.output_tokens, 0);
    assert_eq!(plan.budget.counters[0].committed.output_tokens, 130);
    assert_eq!(plan.budget.usage.cached_input_tokens, 2);
    assert_eq!(plan.budget.reservation.state, "committed");
    assert_eq!(plan.graph.run.state, AiRunState::Completed);
    assert_eq!(plan.graph.submission.next.state, "completed");
    assert_eq!(plan.graph.submission.next.terminal_message_id, Some(message_id));
    let persisted = plan.graph.output.expect("the output is persisted");
    assert_eq!(persisted.message.sequence, 8);
    assert_eq!(persisted.message.id, message_id);
    assert_eq!(persisted.event.sequence, 6);
    assert_eq!(persisted.inbox.sequence, 1);
    assert_eq!(persisted.wakeup.session_id, persisted.event.session_id);
    assert_eq!(persisted.wakeup.sequence, 6);
    assert_eq!(persisted.inbox.wakeup.sequence, 1);
    assert_eq!(persisted.inbox.wakeup.principal_kind, "user");
    assert_eq!(persisted.inbox.event.event_type, "assistant_message_completed");

    let written = stored(plan.graph.submission.next.clone(), 4);
    let confirm = |message_id, second| {
        confirm_terminal_row(
            &written,
            ProviderBackgroundStatus::Completed,
            message_id,
            at(second),
        )
    };
    assert_eq!(confirm(Some(message_id), NOW + 2), Ok(()));
    assert_eq!(confirm(Some(message_id), NOW + 3), Err(OrmErrorCode::InternalError));
    assert_eq!(confirm(None, NOW + 2), Err(OrmErrorCode::InternalError));

    let mut settled_budget = budget("committed");
    settled_budget.actual = plan.budget.reservation.actual;
    settled_budget.actual_cached_input_tokens =
        plan.budget.reservation.actual_cached_input_tokens;
    settled_budget.reconciled_at = Some(NOW + 2);
    let mut settled_run = run("completed");
    settled_run.latest_checkpoint_id = Some(message_id);
    let mut replay = ReplaySnapshot {
        submission: Some(stored(plan.graph.submission.next, 4)),
        budget: Some(settled_budget),
        usage: vec![AiUsageEntryRecord {
            run_id: Some(2),
            provider_kind: "openai".to_owned(),
            provider_model: "gpt-test".to_owned(),
            input_tokens: 8,
            cached_input_tokens: 2,
            output_tokens: 30,
            tool_units: 0,
            image_units: 0,
            cost_microunits: Some(5),
        }],
        run: Some(settled_run),
        outcomes: vec![AiRunAttemptOutcomeRecord {
            attempt_id: 3,
            run_id: 2,
            lease_generation: 4,
            worker_id: "worker".to_owned(),
            final_state: "completed".to_owned(),
            outcome_code: "provider_response_completed".to_owned(),
            provider_response_id: Some(RESPONSE_ID.to_owned()),
            finished_at: NOW + 2,
        }],
        output: OutputSnapshot {
            message: Some(persisted.message),
            checkpoints: vec![persisted.checkpoint],
            blocks: persisted.blocks,
            event: Some(persisted.event),
            inbox: Some(persisted.inbox.event),
        },
        processed: Vec::new(),
    };
    assert_eq!(
        validate_existing_background_terminal(&replay, &observed, actual(), "checkpoint"),
        Ok(())
    );
    assert_eq!(
        validate_existing_background_terminal(
            &replay,
            &observation(ProviderBackgroundStatus::Failed),
            actual(),
            "checkpoint",
        ),
        Err(OrmErrorCode::Conflict)
    );
    replay.usage.clear();
    assert_eq!(
        validate_existing_background_terminal(&replay, &observed, actual(), "checkpoint"),
        Err(OrmErrorCode::Conflict)
    );
}

#[test]
fn unsuccessful_responses_settle_without_output() {
    for (status, state, result) in [
        (
            ProviderBackgroundStatus::Failed,
            AiRunState::Failed,
            AiOpenAiBackgroundTerminalOutcome::Failed,
        ),
        (
            ProviderBackgroundStatus::Incomplete,
            AiRunState::Failed,
            AiOpenAiBackgroundTerminalOutcome::Failed,
        ),
        (
            ProviderBackgroundStatus::Cancelled,
            AiRunState::Cancelled,
            AiOpenAiBackgroundTerminalOutcome::Cancelled,
        ),
    ] {
        let step = commit_once(
            &commit_snapshot(),
            &observation(status),
            &None,
            actual(),
            "checkpoint",
            at(NOW + 2),
        );
        match step {
            Ok(TerminalStep::Commit(plan)) => {
                assert_eq!(plan.graph.run.state, state);
                assert_eq!(plan.graph.result, result);
                assert!(plan.graph.output.is_none());
            }
            other => panic!("unexpected step: {other:?}"),
        }
    }
    let commit = |snapshot: CommitSnapshot, output, actual| {
        commit_once(
            &snapshot,
            &observation(ProviderBackgroundStatus::Completed),
            &output,
            actual,
            "checkpoint",
            at(NOW + 2),
        )
        .map(|_| ())
    };
    assert_eq!(commit(commit_snapshot(), None, actual()), Err(OrmErrorCode::InternalError));
    let mut unknown = commit_snapshot();
    unknown.current = None;
    assert_eq!(commit(unknown, Some(output()), actual()), Err(OrmErrorCode::NotFound));
    let mut uncounted = commit_snapshot();
    uncounted.counters = vec![None];
    assert_eq!(commit(uncounted, Some(output()), actual()), Err(OrmErrorCode::NotFound));
    let mut other = output();
    other.checkpoint_hash = "other".to_owned();
    assert_eq!(
        commit(commit_snapshot(), Some(other), actual()),
        Err(OrmErrorCode::Conflict)
    );
    let mut unclaimed = commit_snapshot();
    unclaimed.current = Some(claimed_row());
    assert_eq!(commit(unclaimed, Some(output()), actual()), Err(OrmErrorCode::Conflict));
}

#[test]
fn receipts_confirm_or_contradict_the_response() {
    let pending = || receipt("response_completed", ReceiptState::PendingReconciliation, false);
    match match_background_receipt(&claimed_row(), &Vec::new(), &vec![pending()]) {
        Ok(ReceiptMatch::Bind { write, matched, .. }) => {
            assert_eq!(write.state, ReceiptState::MatchedPending);
            assert_eq!(matched.provider_event_kind, "response_completed");
            let updated = receipt("response_completed", ReceiptState::MatchedPending, true);
            assert_eq!(confirm_receipt_settled(&updated.receipt, &write, true), Ok(()));
            let unbound = receipt("response_completed", ReceiptState::MatchedPending, false);
            assert_eq!(
                confirm_receipt_settled(&unbound.receipt, &write, true),
                Err(OrmErrorCode::InternalError)
            );
            assert_eq!(
                confirm_receipt_settled(&pending().receipt, &write, false),
                Err(OrmErrorCode::InternalError)
            );
        }
        other => panic!("unexpected match: {other:?}"),
    }
    assert_eq!(
        match_background_receipt(&claimed_row(), &Vec::new(), &Vec::new()),
        Ok(ReceiptMatch::Absent)
    );
    let query = background_receipt_query(
        &claimed_row(),
        RESPONSE_ID,
        ReceiptState::MatchedPending,
        true,
    );
    assert_eq!(query.provider_kind, "openai");
    assert_eq!(query.provider_response_id, RESPONSE_ID);
    assert_eq!(query.bound_to, Some((2, 3)));
    let mut unsigned = pending();
    unsigned.receipt.signature_verified = false;
    assert_eq!(
        match_background_receipt(&claimed_row(), &Vec::new(), &vec![unsigned]),
        Err(OrmErrorCode::InternalError)
    );

    let matched = |kind: &str| MatchedBackgroundReceipt {
        id: 0xf1,
        provider_kind: "openai".to_owned(),
        provider_event_kind: kind.to_owned(),
    };
    let mut confirmed = commit_snapshot();
    confirmed.matched = Some(matched("response_completed"));
    confirmed.bound = vec![receipt("response_completed", ReceiptState::MatchedPending, true)];
    confirmed.receipt = Some(receipt("response_completed", ReceiptState::MatchedPending, true));
    confirmed.further =
        vec![receipt("response_failed", ReceiptState::PendingReconciliation, false)];
    let commit = |snapshot: &CommitSnapshot| {
        commit_once(
            snapshot,
            &observation(ProviderBackgroundStatus::Completed),
            &Some(output()),
            actual(),
            "checkpoint",
            at(NOW + 2),
        )
    };
    match commit(&confirmed) {
        Ok(TerminalStep::Commit(plan)) => {
            assert_eq!(plan.graph.receipt.expect("receipt").state, ReceiptState::Processed);
            assert_eq!(plan.graph.duplicates[0].state, ReceiptState::RecoveryRequired);
            assert_eq!(
                plan.graph.duplicates[0].safe_error_code,
                Some(BackgroundReason::TerminalReceiptConflict)
            );
        }
        other => panic!("unexpected step: {other:?}"),
    }
    let mut contradicted = commit_snapshot();
    contradicted.matched = Some(matched("response_failed"));
    contradicted.bound = vec![receipt("response_failed", ReceiptState::MatchedPending, true)];
    match commit(&contradicted) {
        Ok(TerminalStep::Close(plan)) => {
            assert_eq!(
                plan.run.error_code,
                Some(BackgroundReason::TerminalReceiptConflict)
            );
            assert_eq!(plan.receipt.expect("receipt").state, ReceiptState::RecoveryRequired);
        }
        other => panic!("unexpected step: {other:?}"),
    }
}

#[test]
fn terminal_commits_recheck_authority_last() {
    let mut commit = TerminalCommit::begin(ProviderBackgroundStatus::Completed)
        .loaded(&claimed_row());
    let mut phases = vec![commit.phase];
    while commit.phase != CommitPhase::Committed {
        commit = commit.step(Ok(())).expect("steps");
        phases.push(commit.phase);
    }
    let before_last = phases[phases.len() - 3];
    assert_eq!(before_last, CommitPhase::RecheckingPolicy);
    assert!(phases.contains(&CommitPhase::PreparingOutput));
    let mut failing = TerminalCommit::begin(ProviderBackgroundStatus::Failed);
    failing = failing.step(Ok(())).expect("steps");
    assert_eq!(failing.step(Err(AiError::Forbidden)), Err(AiError::Forbidden));
}

#[test]
fn background_limits_have_exact_bounds() {
    let delay = |count| background_retry_delay(count, Duration::seconds(3_600));
    assert_eq!(delay(0), Ok(Duration::seconds(1)));
    assert_eq!(delay(5), Ok(Duration::seconds(32)));
    assert_eq!(delay(11), Ok(Duration::seconds(2_048)));
    assert_eq!(delay(12), Ok(Duration::seconds(3_600)));
    assert_eq!(delay(u32::MAX), Ok(Duration::seconds(3_600)));
    assert_eq!(
        background_retry_delay(1, Duration { nanos: 1 }),
        Err(AiError::InvalidConfiguration("invalid background retry delay".to_owned()))
    );
    assert_eq!(
        retrieval_timeout(at(NOW), at(NOW + 60), Duration::seconds(30)),
        Ok(Duration::seconds(30))
    );
    assert_eq!(
        retrieval_timeout(at(NOW), at(NOW + 10), Duration::seconds(30)),
        Ok(Duration { nanos: 10_000_000_000 - 1_000_000 })
    );
    assert_eq!(
        retrieval_timeout(at(NOW), at(NOW), Duration::seconds(30)),
        Err(AiError::Conflict)
    );
    assert_eq!(heartbeat_delay(Duration::seconds(30)), Duration::seconds(10));
    assert_eq!(heartbeat_delay(Duration { nanos: 1 }), Duration { nanos: 1 });
    assert_eq!(validate_terminal_principal_age(Duration::seconds(3_600)), Ok(()));
    assert!(validate_terminal_principal_age(Duration::seconds(3_601)).is_err());

    let windows = AiOpenAiBackgroundReconciliationWindows::new;
    assert!(windows(Duration::seconds(600), Duration::seconds(2_592_000)).is_ok());
    assert!(windows(Duration::seconds(601), Duration::seconds(1)).is_err());
    assert!(windows(Duration::seconds(1), Duration::seconds(2_592_001)).is_err());
    let bounds = |ttl, delay, scan, retries, transactions| {
        AiOpenAiBackgroundReconciliationLimits::new(
            Duration::seconds(ttl),
            Duration::seconds(delay),
            scan,
            retries,
            transactions,
        )
        .is_ok()
    };
    assert!(bounds(300, 3_600, 256, 100, 16));
    assert!(!bounds(301, 3_600, 256, 100, 16));
    assert!(!bounds(300, 3_601, 256, 100, 16));
    assert!(!bounds(300, 3_600, 257, 100, 16));
    assert!(!bounds(300, 3_600, 0, 100, 16));
    assert!(!bounds(300, 3_600, 256, 101, 16));
    assert!(!bounds(300, 3_600, 256, 100, 17));
    let retrieval = |body, visible, items, content, timeout, age| {
        AiOpenAiBackgroundRetrievalLimits::new(
            body,
            visible,
            items,
            content,
            Duration::seconds(timeout),
            Duration::seconds(age),
        )
        .is_ok()
    };
    assert!(retrieval(67_108_864, 67_108_864, 4_096, 4_096, 300, 3_600));
    assert!(!retrieval(10, 11, 1, 1, 1, 1));
    assert!(!retrieval(10, 10, 4_097, 1, 1, 1));
    assert!(!retrieval(10, 10, 1, 0, 1, 1));
    assert!(!retrieval(10, 10, 1, 1, 301, 1));
    assert!(!retrieval(10, 10, 1, 1, 1, 3_601));
    assert_eq!(
        AiOpenAiBackgroundRetrievalLimits::default().maximum_request_timeout(),
        Duration::seconds(30)
    );
}

#[test]
fn background_states_round_trip() {
    for state in [
        BackgroundSubmissionState::Prepared,
        BackgroundSubmissionState::WaitingProvider,
        BackgroundSubmissionState::Reconciling,
        BackgroundSubmissionState::Completed,
        BackgroundSubmissionState::Failed,
        BackgroundSubmissionState::Cancelled,
        BackgroundSubmissionState::RecoveryRequired,
    ] {
        assert_eq!(BackgroundSubmissionState::from_persisted(state.as_str()), Some(state));
    }
    assert_eq!(BackgroundSubmissionState::from_persisted("other"), None);
    assert!(valid_provider_status("in_progress") && !valid_provider_status("paused"));
    assert!(map_terminal_status(ProviderBackgroundStatus::Queued).is_none());
    assert!(valid_response_id("resp_1"));
    for refused in ["resp_", "resp", "resp_a b", "abc_resp_1"] {
        assert!(!valid_response_id(refused));
    }
    assert!(!valid_response_id(&format!("resp_{}", "a".repeat(196))));
    assert!(valid_sha256_hex(&"aB".repeat(32)) && !valid_sha256_hex(&"zz".repeat(32)));
    let routed = route()
        .with_residency("eu".to_owned())
        .expect("residency")
        .with_consent_reference("consent-1".to_owned())
        .expect("consent");
    assert_eq!(routed.redacted().residency.as_deref(), Some("eu"));
    assert!(!format!("{:?}", routed.redacted()).contains("consent-1"));
    assert!(AiOpenAiBackgroundRetrievalRoute::new(
        String::new(),
        "provider".to_owned(),
        "v1".to_owned()
    )
    .is_err());
}
