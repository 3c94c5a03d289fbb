//! Recorded egress decisions and live-delta batches.

use graphql_orm_ai::access::{
    AiContentProtectionMode, AiContentProtectionPolicy, AiRunLease, AiRunState, valid_reference,
};
use graphql_orm_ai::authority::{AuthorityCheck, ContentAuthority};
use graphql_orm_ai::checkpoints::limits::AiCoordinatorCheckpointLimits;
use graphql_orm_ai::clock::{Duration, UtcTime};
use graphql_orm_ai::egress::{
    AiDataSourceRef, AiDestinationTrust, AiEgressCapability, AiEgressDecision, AiEgressManifest,
    AiEgressOutcome, AiEgressReason, AiSourceTrust, EgressAuditStep, record_decision,
    record_matches, same_manifest,
};
use graphql_orm_ai::error::AiError;
use graphql_orm_ai::live_delta::{
    AiLiveDeltaBatch, AiLiveDeltaKind, AiLiveDeltaPersistenceContext,
    AiLiveDeltaPersistenceLimits, live_delta_context, live_delta_payload, prepare_live_delta,
};
use graphql_orm_ai::principal::{
    AiScope, AuthPrincipal, PrincipalReference, PrincipalReferenceKind, ResolvedPrincipal,
};
use graphql_orm_ai::provider::{DataClassification, ProviderKind};
use graphql_orm_ai::records::AiSessionRecord;

fn scope() -> AiScope {
    AiScope::new("tenant", "t1").with_tenant_id("t1")
}

fn manifest() -> AiEgressManifest {
    AiEgressManifest {
        provider_profile_id: "profile".to_owned(),
        provider_kind: "openai".to_owned(),
        model: "test-model".to_owned(),
        destination: "provider".to_owned(),
        destination_trust: AiDestinationTrust::ManagedProvider,
        capability: AiEgressCapability::ModelInference,
        scope: scope(),
        session_id: Some(1),
        run_id: Some(2),
        sources: vec![AiDataSourceRef {
            kind: "message".to_owned(),
            reference: "m1".to_owned(),
            classification: DataClassification::Confidential,
            trust: AiSourceTrust::UserProvided,
        }],
        estimated_bytes: 100,
        estimated_tokens: 50,
        attachment_count: 0,
        purpose: "chat".to_owned(),
        retention: "none".to_owned(),
        residency: None,
        policy_version: "v1".to_owned(),
        consent_reference: None,
        maximum_classification: DataClassification::Confidential,
        stable_hash: "hash".to_owned(),
    }
}

fn decision() -> AiEgressDecision {
    AiEgressDecision {
        id: 9,
        manifest_hash: "hash".to_owned(),
        principal_subject: "u1".to_owned(),
        outcome: AiEgressOutcome::Allow,
        reason: AiEgressReason::Allowed,
        policy_version: "v1".to_owned(),
    }
}

#[test]
fn egress_decisions_are_recorded_once() {
    let row = match record_decision(&manifest(), &decision(), &None) {
        Ok(EgressAuditStep::Append(row)) => row,
        other => panic!("unexpected step: {other:?}"),
    };
    assert_eq!(row.capability, "model_inference");
    assert_eq!(row.classification, "confidential");
    assert_eq!(row.outcome, "allow");
    assert_eq!(row.reason_code, "allowed");
    assert_eq!((row.estimated_bytes, row.estimated_tokens), (100, 50));
    assert!(record_matches(&row, &manifest(), &decision()));
    let existing = Some(row);
    assert_eq!(
        record_decision(&manifest(), &decision(), &existing),
        Ok(EgressAuditStep::AlreadyRecorded)
    );
    let mut changed = decision();
    changed.outcome = AiEgressOutcome::Deny;
    assert_eq!(record_decision(&manifest(), &changed, &existing), Err(AiError::Conflict));
}

#[test]
fn egress_decisions_must_fit_their_manifest() {
    let refused = Err(AiError::InvalidInput("invalid redacted egress audit event".to_owned()));
    let mut other = decision();
    other.manifest_hash = "other".to_owned();
    assert_eq!(record_decision(&manifest(), &other, &None), refused);
    let mut unnamed = decision();
    unnamed.principal_subject = " ".to_owned();
    assert_eq!(record_decision(&manifest(), &unnamed, &None), refused);
    let mut large = manifest();
    large.estimated_bytes = u64::MAX;
    assert_eq!(record_decision(&large, &decision(), &None), refused);
    let mut long = manifest();
    long.scope.kind = "k".repeat(129);
    assert_eq!(record_decision(&long, &decision(), &None), refused);
    assert!(same_manifest(&manifest(), &manifest()));
    assert!(!same_manifest(&manifest(), &large));
}

fn reference() -> PrincipalReference {
    PrincipalReference {
        kind: PrincipalReferenceKind::UserSession,
        subject: "u1".to_owned(),
        tenant_id: Some("t1".to_owned()),
        expires_at: None,
        encoding: "{}".to_owned(),
    }
}

fn lease() -> AiRunLease {
    AiRunLease {
        session_id: 1,
        run_id: 2,
        attempt_id: 3,
        lease_generation: 4,
        state: AiRunState::Running,
        principal_reference: reference(),
        latest_checkpoint_id: None,
    }
}

fn session() -> AiSessionRecord {
    AiSessionRecord {
        id: 1,
        owner_principal_kind: "user".to_owned(),
        owner_subject: "u1".to_owned(),
        tenant_id: Some("t1".to_owned()),
        scope_kind: "tenant".to_owned(),
        scope_id: "t1".to_owned(),
        state: "active".to_owned(),
        stream_head: 0,
        message_head: 0,
        deleted_at: None,
        row_version: 1,
    }
}

fn context() -> AiLiveDeltaPersistenceContext {
    AiLiveDeltaPersistenceContext {
        session_id: 1,
        run_id: 2,
        attempt_id: 3,
        lease_generation: 4,
        scope: scope(),
        correlation_id: "corr".to_owned(),
        provider_kind: ProviderKind::Anthropic,
        provider_model: "model".to_owned(),
        provider_response_id: Some("resp".to_owned()),
        budget_reservation_id: 5,
    }
}

fn batch(text: &str) -> AiLiveDeltaBatch {
    AiLiveDeltaBatch { sequence: 7, kind: AiLiveDeltaKind::Text, text: text.to_owned() }
}

fn limits() -> AiLiveDeltaPersistenceLimits {
    AiLiveDeltaPersistenceLimits::new(8, Duration::seconds(60)).expect("limits")
}

fn policy(version: u64, ready: bool) -> AiContentProtectionPolicy {
    AiContentProtectionPolicy {
        scope: scope(),
        mode: AiContentProtectionMode::DatabaseManaged,
        key_policy_reference: None,
        version,
        ready,
    }
}

fn at(second: i64) -> UtcTime {
    UtcTime::from_unix_timestamp(second).expect("calendar instant")
}

fn resolved(reference: PrincipalReference) -> ResolvedPrincipal {
    ResolvedPrincipal {
        reference,
        principal: AuthPrincipal::User { subject: "u1".to_owned() },
        resolved_at: at(0),
    }
}

fn current_check() -> AuthorityCheck {
    AuthorityCheck::begin(&Some(session()), &lease(), &scope())
        .and_then(|check| {
            check.admit_principal(&resolved(reference()), at(59), Duration::seconds(60))
        })
        .expect("the worker is current")
}

fn authority(version: u64) -> ContentAuthority {
    current_check()
        .admit_access(true, true)
        .and_then(|check| check.admit_policy(policy(version, true)))
        .expect("the authority is earned")
}

#[test]
fn authority_is_earned_step_by_step() {
    let begin = |session, scope: &AiScope| {
        AuthorityCheck::begin(&session, &lease(), scope).map(|_| ())
    };
    assert_eq!(begin(Some(session()), &scope()), Ok(()));
    assert_eq!(begin(None, &scope()), Err(AiError::NotFound));
    assert_eq!(
        begin(Some(session()), &AiScope::new("tenant", "t2")),
        Err(AiError::Forbidden)
    );
    let mut foreign = session();
    foreign.owner_subject = "u2".to_owned();
    assert_eq!(begin(Some(foreign), &scope()), Err(AiError::Forbidden));
    let mut deleted = session();
    deleted.deleted_at = Some(1);
    assert_eq!(begin(Some(deleted), &scope()), Err(AiError::Forbidden));
    let mut archived = session();
    archived.state = "archived".to_owned();
    assert_eq!(begin(Some(archived), &scope()), Err(AiError::Forbidden));

    let bound = || AuthorityCheck::begin(&Some(session()), &lease(), &scope()).expect("bound");
    let age = Duration::seconds(60);
    let admit_at = |second| {
        bound().admit_principal(&resolved(reference()), at(second), age).map(|_| ())
    };
    assert_eq!(admit_at(60), Ok(()));
    assert_eq!(admit_at(61), Err(AiError::ReauthorizationFailed));
    assert_eq!(admit_at(-1), Err(AiError::ReauthorizationFailed));
    // The limits of checkpoints accept their maximum age, too.
    let limits = AiCoordinatorCheckpointLimits::new(1, age).expect("limits");
    let checkpoint_at = |second| {
        limits.admit_principal(bound(), &resolved(reference()), at(second)).map(|_| ())
    };
    assert_eq!(checkpoint_at(60), Ok(()));
    assert_eq!(checkpoint_at(61), Err(AiError::ReauthorizationFailed));

    assert_eq!(current_check().admit_access(true, false).map(|_| ()), Err(AiError::Forbidden));
    assert_eq!(current_check().admit_access(false, true).map(|_| ()), Err(AiError::Forbidden));
    let granted = || current_check().admit_access(true, true).expect("granted");
    assert_eq!(
        granted().admit_policy(policy(1, false)).map(|_| ()),
        Err(AiError::RuntimeNotReady)
    );
    let mut elsewhere = policy(1, true);
    elsewhere.scope = AiScope::new("tenant", "t2");
    assert_eq!(
        granted().admit_policy(elsewhere).map(|_| ()),
        Err(AiError::RuntimeNotReady)
    );
    assert_eq!(authority(3).policy().version, 3);
    assert_eq!(authority(3).session(), &session());
}

#[test]
fn live_deltas_are_fenced_and_provisional() {
    let event = prepare_live_delta(
        6,
        &authority(1),
        &authority(1),
        &lease(),
        &context(),
        &batch("hällo"),
        limits(),
    )
    .expect("prepares");
    assert_eq!(event.event_type, "provider_live_delta");
    assert_eq!(event.provider_kind, "anthropic");
    assert_eq!(event.expected_owner_subject, "u1");
    assert_eq!(event.expected_tenant_id.as_deref(), Some("t1"));
    let payload = live_delta_payload(&lease(), &context(), &batch("hällo"));
    assert!(payload.provisional);
    assert_eq!(payload.byte_count, 6);
    assert_eq!(payload.batch_sequence, 7);
    assert_eq!(payload.kind, "text");
    let protected = live_delta_context(6, &authority(1));
    assert_eq!(protected.entity(), "graphql_orm_ai_session_events");
    assert_eq!(protected.row_id(), "00000000-0000-0000-0000-000000000006");
}

#[test]
fn live_deltas_are_refused_outside_their_lease() {
    let prepare = |current: &ContentAuthority, context: &AiLiveDeltaPersistenceContext, text: &str| {
        prepare_live_delta(
            6,
            &authority(1),
            current,
            &lease(),
            context,
            &batch(text),
            limits(),
        )
        .map(|_| ())
    };
    let unchanged = authority(1);
    assert_eq!(prepare(&unchanged, &context(), ""), Err(AiError::Conflict));
    assert_eq!(prepare(&unchanged, &context(), "123456789"), Err(AiError::Conflict));
    let mut stale = context();
    stale.lease_generation = 3;
    assert_eq!(prepare(&unchanged, &stale, "a"), Err(AiError::Conflict));
    let mut elsewhere = context();
    elsewhere.scope = AiScope::new("tenant", "t2");
    assert_eq!(prepare(&unchanged, &elsewhere, "a"), Err(AiError::Forbidden));
    let mut unusable = context();
    unusable.correlation_id = "line\nbreak".to_owned();
    assert_eq!(prepare(&unchanged, &unusable, "a"), Err(AiError::Conflict));
    assert_eq!(
        prepare(&authority(2), &context(), "a"),
        Err(AiError::ReauthorizationFailed)
    );
    assert_eq!(prepare(&unchanged, &context(), "a"), Ok(()));
    assert!(!valid_reference(" "));
    assert!(!valid_reference(&"r".repeat(1_025)));
    assert!(AiLiveDeltaPersistenceLimits::new(0, Duration::seconds(60)).is_err());
    assert!(AiLiveDeltaPersistenceLimits::new(8, Duration::seconds(0)).is_err());
}

#[test]
fn live_deltas_need_a_fresh_principal() {
    let attempt = |reference, second| {
        let check = AuthorityCheck::begin(&Some(session()), &lease(), &scope()).expect("bound");
        limits().admit_principal(check, &resolved(reference), &lease(), at(second)).map(|_| ())
    };
    assert_eq!(attempt(reference(), 60), Ok(()));
    assert_eq!(attempt(reference(), 61), Err(AiError::ReauthorizationFailed));
    let mut other = reference();
    other.tenant_id = None;
    assert_eq!(attempt(other, 1), Err(AiError::ReauthorizationFailed));
}
