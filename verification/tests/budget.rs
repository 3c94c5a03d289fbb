//! Budget admission and settlement against an in-memory store.

use graphql_orm_ai::budget::amounts::{AiBudgetAmounts, StoredAmounts};
use graphql_orm_ai::budget::period::{budget_period, calendar_month, next_calendar_month};
use graphql_orm_ai::budget::reconciliation::{
    AiBudgetReconciliation, AiBudgetReconciliationOutcome, AiBudgetReconciliationResult,
    CounterUpdate, NewUsageEntry, ReconciliationSnapshot, ReconciliationStep, ReservationUpdate,
    admit_reconciliation, background_usage_identity, commit_uncertain_background_budget,
    reconcile_once, record_to_reconciliation_result,
};
use graphql_orm_ai::budget::reservation::{
    AiBudgetReservationRequest, AiBudgetServiceLimits, CounterWrite, ReservationSnapshot,
    ReservationStep, admit_reservation_request, applicable_policies, policy_scope_keys,
    reserve_once,
};
use graphql_orm_ai::budget::rows::{
    AiBudgetCounterRecord, AiBudgetPolicyRecord, AiBudgetReservation, AiBudgetReservationRecord,
    AiBudgetReservationState, PolicyCeilings, StoredActual, parse_reservation_state,
    record_to_reservation,
};
use graphql_orm_ai::clock::{Duration, UtcTime};
use graphql_orm_ai::error::{
    AiError, OrmErrorCode, TransactionFault, map_orm, retry_transaction,
};
use graphql_orm_ai::principal::{
    AiScope, AuthPrincipal, PrincipalReference, PrincipalReferenceKind, ResolvedPrincipal,
};
use graphql_orm_ai::provider::ProviderKind;
use graphql_orm_ai::records::{AiRunRecord, AiSessionRecord};
use graphql_orm_ai::scope::ai_scope_key;

const TENANT: &str = "tenant-test";
const SUBJECT: &str = "budget-user";
const NOW: i64 = 1_800_000_000;

fn at(second: i64) -> UtcTime {
    UtcTime::from_unix_timestamp(second).unwrap()
}

fn limits() -> AiBudgetServiceLimits {
    AiBudgetServiceLimits::new(
        AiBudgetAmounts {
            input_tokens: 1_000,
            output_tokens: 1_000,
            tool_units: 100,
            image_units: 100,
            cost_microunits: 10_000,
            runs: 1,
        },
        Duration::seconds(300),
        Duration::seconds(30),
        16,
        8,
    )
    .expect("test deployment limits should validate")
}

fn reference() -> PrincipalReference {
    PrincipalReference {
        kind: PrincipalReferenceKind::UserSession,
        subject: SUBJECT.to_owned(),
        tenant_id: Some(TENANT.to_owned()),
        expires_at: None,
        encoding: "{\"user\":\"budget-user\"}".to_owned(),
    }
}

fn resolved_principal(second: i64) -> ResolvedPrincipal {
    ResolvedPrincipal {
        reference: reference(),
        principal: AuthPrincipal::User { subject: SUBJECT.to_owned() },
        resolved_at: at(second),
    }
}

fn policy(id: u128, scope: &AiScope, principal: Option<&str>, input: i64) -> AiBudgetPolicyRecord {
    AiBudgetPolicyRecord {
        id,
        scope_key: ai_scope_key(scope),
        scope_kind: scope.kind.clone(),
        scope_id: scope.id.clone(),
        tenant_id: scope.tenant_id.clone(),
        principal_kind: principal.map(|_| "user".to_owned()),
        principal_subject: principal.map(str::to_owned),
        interval_kind: "day".to_owned(),
        maximum: PolicyCeilings {
            input_tokens: Some(input),
            output_tokens: Some(1_000),
            tool_units: Some(100),
            image_units: Some(100),
            cost_microunits: Some(10_000),
            runs: Some(100),
        },
        enabled: true,
        row_version: 0,
    }
}

fn copy_policy(row: &AiBudgetPolicyRecord) -> AiBudgetPolicyRecord {
    AiBudgetPolicyRecord {
        id: row.id,
        scope_key: row.scope_key.clone(),
        scope_kind: row.scope_kind.clone(),
        scope_id: row.scope_id.clone(),
        tenant_id: row.tenant_id.clone(),
        principal_kind: row.principal_kind.clone(),
        principal_subject: row.principal_subject.clone(),
        interval_kind: row.interval_kind.clone(),
        maximum: row.maximum,
        enabled: row.enabled,
        row_version: row.row_version,
    }
}

fn copy_counter(row: &AiBudgetCounterRecord) -> AiBudgetCounterRecord {
    AiBudgetCounterRecord {
        id: row.id,
        budget_policy_id: row.budget_policy_id,
        policy_version: row.policy_version,
        period_key: row.period_key.clone(),
        period_started_at: row.period_started_at,
        period_ends_at: row.period_ends_at,
        reserved: row.reserved,
        committed: row.committed,
        row_version: row.row_version,
    }
}

fn copy_reservation(row: &AiBudgetReservationRecord) -> AiBudgetReservationRecord {
    AiBudgetReservationRecord {
        id: row.id,
        budget_counter_ids: row.budget_counter_ids.clone(),
        scope_kind: row.scope_kind.clone(),
        scope_id: row.scope_id.clone(),
        tenant_id: row.tenant_id.clone(),
        principal_kind: row.principal_kind.clone(),
        principal_subject: row.principal_subject.clone(),
        session_id: row.session_id,
        run_id: row.run_id,
        attempt_id: row.attempt_id,
        lease_generation: row.lease_generation,
        provider_kind: row.provider_kind.clone(),
        provider_model: row.provider_model.clone(),
        pricing_policy_version: row.pricing_policy_version.clone(),
        reserved: row.reserved,
        actual: row.actual,
        actual_cached_input_tokens: row.actual_cached_input_tokens,
        idempotency_key: row.idempotency_key.clone(),
        state: row.state.clone(),
        expires_at: row.expires_at,
        reconciled_at: row.reconciled_at,
        row_version: row.row_version,
    }
}

fn copy_session(row: &AiSessionRecord) -> AiSessionRecord {
    AiSessionRecord {
        id: row.id,
        owner_principal_kind: row.owner_principal_kind.clone(),
        owner_subject: row.owner_subject.clone(),
        tenant_id: row.tenant_id.clone(),
        scope_kind: row.scope_kind.clone(),
        scope_id: row.scope_id.clone(),
        state: row.state.clone(),
        stream_head: row.stream_head,
        message_head: row.message_head,
        deleted_at: row.deleted_at,
        row_version: row.row_version,
    }
}

fn copy_run(row: &AiRunRecord) -> AiRunRecord {
    AiRunRecord {
        id: row.id,
        session_id: row.session_id,
        principal_reference: row.principal_reference.clone(),
        state: row.state.clone(),
        attempt_id: row.attempt_id,
        lease_owner: row.lease_owner.clone(),
        lease_generation: row.lease_generation,
        lease_expires_at: row.lease_expires_at,
        lease_heartbeat_at: row.lease_heartbeat_at,
        retry_count: row.retry_count,
        next_attempt_at: row.next_attempt_at,
        error_code: row.error_code.clone(),
        latest_checkpoint_id: row.latest_checkpoint_id,
        input_message_id: row.input_message_id,
        row_version: row.row_version,
    }
}

struct Store {
    policies: Vec<AiBudgetPolicyRecord>,
    counters: Vec<AiBudgetCounterRecord>,
    reservations: Vec<AiBudgetReservationRecord>,
    usage: Vec<NewUsageEntry>,
    sessions: Vec<AiSessionRecord>,
    runs: Vec<AiRunRecord>,
    next_id: u128,
}

impl Store {
    fn new(maximum_input_tokens: i64) -> Store {
        Store {
            policies: vec![policy(1, &AiScope::new("tenant", TENANT), None, maximum_input_tokens)],
            counters: Vec::new(),
            reservations: Vec::new(),
            usage: Vec::new(),
            sessions: Vec::new(),
            runs: Vec::new(),
            next_id: 1_000,
        }
    }

    fn id(&mut self) -> u128 {
        self.next_id += 1;
        self.next_id
    }

    fn seed_running_run(&mut self) -> (u128, u128, u128) {
        let (session_id, run_id, attempt_id) = (self.id(), self.id(), self.id());
        self.sessions.push(AiSessionRecord {
            id: session_id,
            owner_principal_kind: "user".to_owned(),
            owner_subject: SUBJECT.to_owned(),
            tenant_id: Some(TENANT.to_owned()),
            scope_kind: "tenant".to_owned(),
            scope_id: TENANT.to_owned(),
            state: "active".to_owned(),
            stream_head: 0,
            message_head: 0,
            deleted_at: None,
            row_version: 0,
        });
        self.runs.push(AiRunRecord {
            id: run_id,
            session_id,
            principal_reference: Some(reference()),
            state: "running".to_owned(),
            attempt_id: Some(attempt_id),
            lease_owner: Some("worker-test".to_owned()),
            lease_generation: 1,
            lease_expires_at: Some(NOW + 240),
            lease_heartbeat_at: Some(NOW),
            retry_count: 0,
            next_attempt_at: None,
            error_code: None,
            latest_checkpoint_id: None,
            input_message_id: 7,
            row_version: 0,
        });
        (session_id, run_id, attempt_id)
    }

    fn reservation_snapshot(
        &self,
        principal: &ResolvedPrincipal,
        request: &AiBudgetReservationRequest,
    ) -> ReservationSnapshot {
        let keys = policy_scope_keys(&request.scope);
        let policies: Vec<AiBudgetPolicyRecord> = self
            .policies
            .iter()
            .filter(|row| row.enabled && keys.contains(&row.scope_key))
            .map(copy_policy)
            .collect();
        let counters = match applicable_policies(&policies, &request.scope, "user", SUBJECT, limits())
        {
            Ok(positions) => positions
                .iter()
                .map(|position| {
                    let policy = &policies[*position];
                    let period = budget_period(policy.interval_kind.as_str(), at(NOW)).unwrap();
                    self.counters
                        .iter()
                        .filter(|row| {
                            row.budget_policy_id == policy.id && row.period_key == period.key
                        })
                        .map(copy_counter)
                        .collect()
                })
                .collect(),
            Err(_) => Vec::new(),
        };
        let _ = principal;
        ReservationSnapshot {
            run: self.runs.iter().find(|row| row.id == request.run_id).map(copy_run),
            session: self.sessions.iter().find(|row| row.id == request.session_id).map(copy_session),
            existing: self
                .reservations
                .iter()
                .filter(|row| {
                    row.principal_kind == "user"
                        && row.principal_subject == SUBJECT
                        && row.idempotency_key == request.idempotency_key
                })
                .map(copy_reservation)
                .collect(),
            policies,
            counters,
        }
    }

    /// Applies a planned reservation; a moved fence is a retryable failure.
    fn apply_reservation(
        &mut self,
        step: ReservationStep,
    ) -> Result<AiBudgetReservation, TransactionFault> {
        let (writes, row) = match step {
            ReservationStep::Replay(reservation) => return Ok(reservation),
            ReservationStep::Write { counters, reservation } => (counters, reservation),
        };
        for write in &writes {
            let held = match write {
                CounterWrite::Insert { budget_policy_id, period, .. } => !self.counters.iter().any(
                    |counter| {
                        counter.budget_policy_id == *budget_policy_id
                            && counter.period_key == period.key
                    },
                ),
                CounterWrite::Update { counter_id, expected_row_version, .. } => {
                    self.counters.iter().any(|counter| {
                        counter.id == *counter_id && counter.row_version == *expected_row_version
                    })
                }
            };
            if !held {
                return Err(TransactionFault::Retryable(OrmErrorCode::Conflict));
            }
        }
        let mut ids = Vec::new();
        for write in writes {
            match write {
                CounterWrite::Insert {
                    budget_policy_id,
                    policy_version,
                    period,
                    reserved,
                    committed,
                } => {
                    let id = self.id();
                    self.counters.push(AiBudgetCounterRecord {
                        id,
                        budget_policy_id,
                        policy_version,
                        period_key: period.key,
                        period_started_at: period.started_at,
                        period_ends_at: period.ends_at,
                        reserved,
                        committed,
                        row_version: 0,
                    });
                    ids.push(id);
                }
                CounterWrite::Update { counter_id, reserved, committed, .. } => {
                    self.write_counter(counter_id, reserved, committed);
                    ids.push(counter_id);
                }
            }
        }
        let id = self.id();
        let record = AiBudgetReservationRecord {
            id,
            budget_counter_ids: Some(ids),
            scope_kind: row.scope_kind,
            scope_id: row.scope_id,
            tenant_id: row.tenant_id,
            principal_kind: row.principal_kind,
            principal_subject: row.principal_subject,
            session_id: row.session_id,
            run_id: row.run_id,
            attempt_id: row.attempt_id,
            lease_generation: row.lease_generation,
            provider_kind: row.provider_kind,
            provider_model: row.provider_model,
            pricing_policy_version: row.pricing_policy_version,
            reserved: row.reserved,
            actual: StoredActual {
                input_tokens: None,
                output_tokens: None,
                tool_units: None,
                image_units: None,
                cost_microunits: None,
                runs: None,
            },
            actual_cached_input_tokens: None,
            idempotency_key: row.idempotency_key,
            state: row.state,
            expires_at: row.expires_at,
            reconciled_at: None,
            row_version: 0,
        };
        let reservation = record_to_reservation(&record).expect("inserted rows are readable");
        self.reservations.push(record);
        Ok(reservation)
    }

    fn write_counter(&mut self, id: u128, reserved: StoredAmounts, committed: StoredAmounts) {
        let counter = self.counters.iter_mut().find(|row| row.id == id).unwrap();
        counter.reserved = reserved;
        counter.committed = committed;
        counter.row_version += 1;
    }

    fn reserve(
        &mut self,
        principal: &ResolvedPrincipal,
        request: &AiBudgetReservationRequest,
    ) -> Result<AiBudgetReservation, AiError> {
        admit_reservation_request(principal, request, at(NOW), limits())?;
        let snapshot = self.reservation_snapshot(principal, request);
        let step = reserve_once(&snapshot, principal, request, at(NOW), limits())?;
        self.apply_reservation(step).map_err(|_| AiError::PersistenceFailed)
    }

    fn reconcile(
        &mut self,
        principal: &ResolvedPrincipal,
        reconciliation: &AiBudgetReconciliation,
    ) -> Result<AiBudgetReconciliationResult, AiError> {
        admit_reconciliation(
            principal,
            reconciliation,
            at(NOW),
            limits().maximum_principal_age(),
        )?;
        let record = self
            .reservations
            .iter()
            .find(|row| row.id == reconciliation.reservation_id)
            .map(copy_reservation);
        let counters = match record.as_ref().and_then(|row| row.budget_counter_ids.clone()) {
            Some(ids) => ids
                .iter()
                .map(|id| self.counters.iter().find(|row| row.id == *id).map(copy_counter))
                .collect(),
            None => Vec::new(),
        };
        let run = record
            .as_ref()
            .and_then(|row| self.runs.iter().find(|run| run.id == row.run_id))
            .map(copy_run);
        let snapshot = ReconciliationSnapshot { record, run, counters };
        let usage_id = self.id();
        match reconcile_once(&snapshot, principal, reconciliation, at(NOW), usage_id)? {
            ReconciliationStep::Replay(result) => Ok(result),
            ReconciliationStep::Write { counters, usage, reservation } => {
                self.settle(counters, usage, reservation)
            }
        }
    }

    fn settle(
        &mut self,
        counters: Vec<CounterUpdate>,
        usage: Option<NewUsageEntry>,
        update: ReservationUpdate,
    ) -> Result<AiBudgetReconciliationResult, AiError> {
        for counter in counters {
            self.write_counter(counter.counter_id, counter.reserved, counter.committed);
        }
        if let Some(entry) = usage {
            self.usage.push(entry);
        }
        let row = self
            .reservations
            .iter_mut()
            .find(|row| {
                row.id == update.reservation_id && row.row_version == update.expected_row_version
            })
            .unwrap();
        row.actual = update.actual;
        row.actual_cached_input_tokens = update.actual_cached_input_tokens;
        row.state = update.state;
        row.reconciled_at = Some(update.reconciled_at);
        row.row_version += 1;
        record_to_reconciliation_result(row)
    }
}

fn request(run: (u128, u128, u128), input_tokens: u64, key: &str) -> AiBudgetReservationRequest {
    AiBudgetReservationRequest {
        scope: AiScope::new("tenant", TENANT).with_tenant_id(TENANT),
        session_id: run.0,
        run_id: run.1,
        attempt_id: run.2,
        lease_generation: 1,
        provider_kind: ProviderKind::OpenAi,
        model: "test-model".to_owned(),
        pricing_policy_version: "pricing-test-v1".to_owned(),
        estimate: AiBudgetAmounts {
            input_tokens,
            output_tokens: 10,
            tool_units: 0,
            image_units: 0,
            cost_microunits: 100,
            runs: 1,
        },
        idempotency_key: key.to_owned(),
        expires_at: at(NOW + 120),
    }
}

fn used(input_tokens: u64) -> AiBudgetAmounts {
    AiBudgetAmounts {
        input_tokens,
        output_tokens: 5,
        tool_units: 0,
        image_units: 0,
        cost_microunits: 80,
        runs: 1,
    }
}

#[test]
fn concurrent_reservations_cannot_overspend_one_counter() {
    let mut store = Store::new(100);
    let first = store.seed_running_run();
    let second = store.seed_running_run();
    let principal = resolved_principal(NOW);
    let first_request = request(first, 60, "concurrent-1");
    let second_request = request(second, 60, "concurrent-2");

    // Both transactions read the same rows before either writes.
    let first_step = reserve_once(
        &store.reservation_snapshot(&principal, &first_request),
        &principal,
        &first_request,
        at(NOW),
        limits(),
    )
    .expect("the first reservation fits");
    let racing_step = reserve_once(
        &store.reservation_snapshot(&principal, &second_request),
        &principal,
        &second_request,
        at(NOW),
        limits(),
    )
    .expect("the second reservation fits the rows it read");
    let first_result = store.apply_reservation(first_step);
    let racing_result = store.apply_reservation(racing_step);
    let fault = racing_result.expect_err("the counter was written in between");
    assert!(retry_transaction(fault, "conflict", 0, 8).is_none());
    let second_result = store.reserve(&principal, &second_request);

    let successful = usize::from(first_result.is_ok()) + usize::from(second_result.is_ok());
    let denied = usize::from(matches!(second_result, Err(AiError::BudgetDenied)));
    assert_eq!(successful, 1, "exactly one reservation should fit");
    assert_eq!(denied, 1, "the racing overspend should be denied");

    assert_eq!(store.counters.len(), 1);
    let counter = &store.counters[0];
    assert_eq!(counter.reserved.input_tokens, 60);
    assert_eq!(counter.reserved.runs, 1);
    assert_eq!(counter.committed.input_tokens, 0);
}

#[test]
fn every_applicable_policy_is_checked_before_any_counter_is_written() {
    let mut store = Store::new(100);
    store.policies.push(policy(
        2,
        &AiScope::new("tenant", TENANT).with_tenant_id(TENANT),
        Some(SUBJECT),
        50,
    ));
    let run = store.seed_running_run();

    assert!(matches!(
        store.reserve(&resolved_principal(NOW), &request(run, 60, "multi-policy")),
        Err(AiError::BudgetDenied)
    ));
    assert_eq!(
        store.counters.len(),
        0,
        "a denied later policy must not leave a partial counter reservation"
    );
}

#[test]
fn reservation_requires_fresh_principal_tenant_binding_and_current_fence() {
    let mut store = Store::new(100);
    let run = store.seed_running_run();
    let principal = resolved_principal(NOW);
    let stale = resolved_principal(NOW - 60);
    assert!(matches!(
        store.reserve(&stale, &request(run, 20, "security")),
        Err(AiError::ReauthorizationFailed)
    ));

    let mut wrong_tenant = request(run, 20, "security");
    wrong_tenant.scope.tenant_id = Some("different-tenant".to_owned());
    assert!(matches!(store.reserve(&principal, &wrong_tenant), Err(AiError::Forbidden)));

    let mut swapped_scope = request(run, 20, "security");
    swapped_scope.scope.id = "different-scope".to_owned();
    assert!(matches!(store.reserve(&principal, &swapped_scope), Err(AiError::Forbidden)));

    let mut stale_fence = request(run, 20, "security");
    stale_fence.lease_generation = 2;
    assert!(matches!(store.reserve(&principal, &stale_fence), Err(AiError::Conflict)));
    assert_eq!(store.counters.len(), 0);
}

#[test]
fn reservation_and_commit_reconciliation_are_idempotent_and_release_unused_capacity() {
    let mut store = Store::new(100);
    let run = store.seed_running_run();
    let principal = resolved_principal(NOW);
    let reservation = store
        .reserve(&principal, &request(run, 60, "idempotent"))
        .expect("first reservation should succeed");
    let replay = store
        .reserve(&principal, &request(run, 60, "idempotent"))
        .expect("exact reservation replay should be idempotent");
    assert_eq!(reservation.id, replay.id);

    let mut changed = request(run, 60, "idempotent");
    changed.model = "different-model".to_owned();
    assert!(matches!(store.reserve(&principal, &changed), Err(AiError::Conflict)));

    let reconciliation = AiBudgetReconciliation {
        reservation_id: reservation.id,
        attempt_id: run.2,
        lease_generation: 1,
        actual: Some(used(40)),
        cached_input_tokens: Some(4),
        outcome: AiBudgetReconciliationOutcome::Commit,
    };
    let committed = store
        .reconcile(&principal, &reconciliation)
        .expect("authoritative usage should commit");
    let replay = store
        .reconcile(&principal, &reconciliation)
        .expect("same reconciliation should be idempotent");
    assert_eq!(committed, replay);
    assert_eq!(committed.committed.input_tokens, 40);
    assert_eq!(committed.released.input_tokens, 20);
    assert_eq!(committed.released.output_tokens, 5);

    assert_eq!(store.usage.len(), 1, "an exact replay must not duplicate usage");
    assert_eq!(store.usage[0].budget_reservation_id, reservation.id);
    assert_eq!(store.usage[0].principal_kind, "user");
    assert_eq!(store.usage[0].principal_subject, SUBJECT);
    assert_eq!(store.usage[0].input_tokens, 40);
    assert_eq!(store.usage[0].cached_input_tokens, 4);
    assert_eq!(store.usage[0].output_tokens, 5);
    assert_eq!(store.usage[0].cost_microunits, 80);

    assert_eq!(store.counters.len(), 1);
    assert_eq!(store.counters[0].reserved.input_tokens, 0);
    assert_eq!(store.counters[0].committed.input_tokens, 40);
    assert_eq!(store.counters[0].committed.runs, 1);

    let next = store.seed_running_run();
    store
        .reserve(&principal, &request(next, 60, "remaining-capacity"))
        .expect("proven unused capacity should be reusable");
}

#[test]
fn uncertain_usage_remains_held_until_authoritative_commit() {
    let mut store = Store::new(100);
    let run = store.seed_running_run();
    let principal = resolved_principal(NOW);
    let reservation = store
        .reserve(&principal, &request(run, 80, "uncertain"))
        .expect("reservation should succeed");
    let uncertain = AiBudgetReconciliation {
        reservation_id: reservation.id,
        attempt_id: run.2,
        lease_generation: 1,
        actual: None,
        cached_input_tokens: None,
        outcome: AiBudgetReconciliationOutcome::MarkUncertain,
    };
    let held = store
        .reconcile(&principal, &uncertain)
        .expect("uncertain external execution should remain held");
    assert_eq!(held.held.input_tokens, 80);
    assert_eq!(
        store
            .reconcile(&principal, &uncertain)
            .expect("uncertain replay should be idempotent"),
        held
    );

    let blocked = store.seed_running_run();
    assert!(matches!(
        store.reserve(&principal, &request(blocked, 30, "blocked")),
        Err(AiError::BudgetDenied)
    ));
    assert!(matches!(
        store.reconcile(
            &principal,
            &AiBudgetReconciliation {
                reservation_id: reservation.id,
                attempt_id: run.2,
                lease_generation: 1,
                actual: None,
                cached_input_tokens: None,
                outcome: AiBudgetReconciliationOutcome::ReleaseUnused,
            },
        ),
        Err(AiError::Conflict)
    ));

    store
        .reconcile(
            &principal,
            &AiBudgetReconciliation {
                reservation_id: reservation.id,
                attempt_id: run.2,
                lease_generation: 1,
                actual: Some(used(50)),
                cached_input_tokens: Some(5),
                outcome: AiBudgetReconciliationOutcome::Commit,
            },
        )
        .expect("authoritative recovery usage should settle an uncertain call");

    let remaining = store.seed_running_run();
    store
        .reserve(&principal, &request(remaining, 50, "after-recovery"))
        .expect("only authoritative unused capacity should be reusable");
}

#[test]
fn released_capacity_returns_to_the_counter() {
    let mut store = Store::new(100);
    let run = store.seed_running_run();
    let principal = resolved_principal(NOW);
    let reservation = store.reserve(&principal, &request(run, 80, "release")).unwrap();
    let released = store
        .reconcile(
            &principal,
            &AiBudgetReconciliation {
                reservation_id: reservation.id,
                attempt_id: run.2,
                lease_generation: 1,
                actual: None,
                cached_input_tokens: None,
                outcome: AiBudgetReconciliationOutcome::ReleaseUnused,
            },
        )
        .unwrap();
    assert_eq!(released.released.input_tokens, 80);
    assert_eq!(released.committed.input_tokens, 0);
    assert_eq!(store.counters[0].reserved.input_tokens, 0);
    assert_eq!(store.counters[0].reserved.runs, 0);
    assert!(store.usage.is_empty());
}

#[test]
fn uncertain_background_budget_commits_authoritative_usage() {
    let mut store = Store::new(100);
    let run = store.seed_running_run();
    let principal = resolved_principal(NOW);
    let reservation = store.reserve(&principal, &request(run, 80, "background")).unwrap();
    store
        .reconcile(
            &principal,
            &AiBudgetReconciliation {
                reservation_id: reservation.id,
                attempt_id: run.2,
                lease_generation: 1,
                actual: None,
                cached_input_tokens: None,
                outcome: AiBudgetReconciliationOutcome::MarkUncertain,
            },
        )
        .unwrap();
    let record = copy_reservation(&store.reservations[0]);
    let counters = vec![Some(copy_counter(&store.counters[0]))];
    let commit = commit_uncertain_background_budget(&record, &counters, used(50), 5, at(NOW + 9))
        .expect("an uncertain reservation commits");
    assert_eq!(commit.usage.id, background_usage_identity(reservation.id));
    assert_eq!(commit.usage.input_tokens, 50);
    assert_eq!(commit.reservation.state, "committed");
    assert_eq!(commit.reservation.reconciled_at, NOW + 9);
    assert_eq!(commit.counters[0].reserved.input_tokens, 0);
    assert_eq!(commit.counters[0].committed.input_tokens, 50);

    assert_eq!(
        commit_uncertain_background_budget(&record, &vec![None], used(50), 5, at(NOW)),
        Err(OrmErrorCode::NotFound)
    );
    let mut two_runs = used(50);
    two_runs.runs = 2;
    assert_eq!(
        commit_uncertain_background_budget(&record, &counters, two_runs, 5, at(NOW)),
        Err(OrmErrorCode::Conflict)
    );
    let mut settled = copy_reservation(&record);
    settled.state = "committed".to_owned();
    assert_eq!(
        commit_uncertain_background_budget(&settled, &counters, used(50), 5, at(NOW)),
        Err(OrmErrorCode::Conflict)
    );
}

#[test]
fn calendar_months_take_the_seconds_they_start_at() {
    assert_eq!(next_calendar_month(2026, 11), (2026, 12));
    assert_eq!(next_calendar_month(2026, 12), (2027, 1));
    let month = calendar_month(27, 3, Some(-5), Some(9)).unwrap();
    assert_eq!(month.key, "month:0027-03");
    assert_eq!((month.started_at, month.ends_at), (-5, 9));
    let refused =
        Err(AiError::InvalidConfiguration("invalid AI budget month".to_owned()));
    assert_eq!(calendar_month(2026, 12, None, Some(9)), refused);
    assert_eq!(calendar_month(2026, 12, Some(9), None), refused);
}

#[test]
fn every_month_of_the_calendar_has_its_seconds() {
    let mut start: i64 = -377_705_116_800;
    for year in -9_999i64..=9_999 {
        let leap = year % 4 == 0 && (year % 100 != 0 || year % 400 == 0);
        let february = if leap { 29 } else { 28 };
        for days in [31, february, 31, 30, 31, 30, 31, 31, 30, 31, 30, 31] {
            let end = start + 86_400 * days;
            if end < 253_402_300_800 {
                for second in [start, end - 1] {
                    let month = budget_period("month", at(second)).expect("a month");
                    assert_eq!((month.started_at, month.ends_at), (start, end));
                }
            }
            start = end;
        }
    }
    assert_eq!(start, 253_402_300_800);
    assert_eq!(
        budget_period("month", at(start - 1)),
        Err(AiError::InvalidConfiguration("invalid AI budget month".to_owned()))
    );
}

#[test]
fn periods_are_aligned_to_their_interval() {
    let day = budget_period("day", at(NOW)).unwrap();
    assert_eq!(day.started_at % 86_400, 0);
    assert_eq!(day.ends_at - day.started_at, 86_400);
    assert!(day.started_at <= NOW && NOW < day.ends_at);
    let hour = budget_period("hour", at(NOW)).unwrap();
    assert_eq!(hour.ends_at - hour.started_at, 3_600);
    // 2027-01-15T08:00:00Z lies in January 2027.
    let month = budget_period("month", at(NOW)).unwrap();
    assert_eq!(month.key, "month:2027-01");
    assert_eq!(month.started_at, 1_798_761_600);
    assert_eq!(month.ends_at, 1_801_440_000);
    let december = budget_period("month", at(1_798_761_599)).unwrap();
    assert_eq!(december.key, "month:2026-12");
    assert_eq!(december.ends_at, 1_798_761_600);
    assert!(matches!(
        budget_period("fortnight", at(NOW)),
        Err(AiError::InvalidConfiguration(_))
    ));
}

#[test]
fn amounts_are_checked() {
    let five = used(5);
    let six = used(6);
    assert!(five.fits_within(six));
    assert!(!six.fits_within(five));
    let doubled = graphql_orm_ai::budget::amounts::checked_add(five, six).unwrap();
    assert_eq!(doubled.input_tokens, 11);
    assert_eq!(
        graphql_orm_ai::budget::amounts::checked_sub(doubled, six).unwrap().input_tokens,
        5
    );
    assert!(graphql_orm_ai::budget::amounts::checked_sub(five, six).is_err());
    assert_eq!(
        graphql_orm_ai::budget::amounts::saturating_sub(five, six).input_tokens,
        0
    );
    assert!(graphql_orm_ai::budget::amounts::ensure_storable(i64::MAX as u64).is_ok());
    assert!(graphql_orm_ai::budget::amounts::ensure_storable(i64::MAX as u64 + 1).is_err());
}

#[test]
fn store_failures_map_to_safe_errors() {
    assert_eq!(
        map_orm(OrmErrorCode::PageLimitExceeded, "too many"),
        AiError::InvalidInput("too many".to_owned())
    );
    assert_eq!(map_orm(OrmErrorCode::Unauthenticated, ""), AiError::Forbidden);
    assert_eq!(map_orm(OrmErrorCode::NotFound, ""), AiError::NotFound);
    assert_eq!(map_orm(OrmErrorCode::ConstraintViolation, ""), AiError::Conflict);
    assert_eq!(map_orm(OrmErrorCode::ServiceUnavailable, ""), AiError::PersistenceFailed);
    assert!(retry_transaction(TransactionFault::Retryable(OrmErrorCode::Conflict), "", 7, 8).is_none());
    assert_eq!(
        retry_transaction(TransactionFault::Retryable(OrmErrorCode::Conflict), "", 8, 8),
        Some(AiError::Conflict)
    );
    assert_eq!(
        retry_transaction(TransactionFault::Fatal(OrmErrorCode::NotFound), "", 0, 8),
        Some(AiError::NotFound)
    );
}

#[test]
fn limits_and_states_are_validated() {
    assert!(matches!(
        AiBudgetServiceLimits::new(
            used(1),
            Duration::seconds(0),
            Duration::seconds(30),
            16,
            8,
        ),
        Err(AiError::InvalidConfiguration(_))
    ));
    assert!(matches!(
        AiBudgetServiceLimits::new(
            used(1),
            Duration::seconds(1),
            Duration::seconds(30),
            257,
            8,
        ),
        Err(AiError::InvalidConfiguration(_))
    ));
    assert_eq!(
        parse_reservation_state("uncertain"),
        Ok(AiBudgetReservationState::Uncertain)
    );
    assert_eq!(parse_reservation_state("unknown"), Err(AiError::PersistenceFailed));
}

#[test]
fn requests_outside_deployment_limits_are_refused() {
    let mut store = Store::new(100);
    let run = store.seed_running_run();
    let principal = resolved_principal(NOW);
    let mut expired = request(run, 20, "expired");
    expired.expires_at = at(NOW);
    assert!(matches!(store.reserve(&principal, &expired), Err(AiError::InvalidInput(_))));
    let mut too_long = request(run, 20, "long");
    too_long.expires_at = at(NOW + 301);
    assert!(matches!(store.reserve(&principal, &too_long), Err(AiError::InvalidInput(_))));
    let too_much = request(run, 1_001, "much");
    assert!(matches!(store.reserve(&principal, &too_much), Err(AiError::InvalidInput(_))));
}
