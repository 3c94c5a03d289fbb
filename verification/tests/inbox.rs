//! Inbox streams: appending, reading, following, and pruning.

use graphql_orm_ai::access::{AiContentProtectionMode, AiContentProtectionPolicy};
use graphql_orm_ai::authority::ContentAuthority;
use graphql_orm_ai::digest::Uuid;
use graphql_orm_ai::error::{AiError, OrmErrorCode};
use graphql_orm_ai::inbox::page::{
    AiInboxEventPage, PageQuery, PageStart, admit_row, admit_row_session, begin_page,
    check_window, inbox_event_context, inbox_event_view,
};
use graphql_orm_ai::inbox::pruning::{
    AiInboxPruningLimits, AiInboxPruningReport, PruneSnapshot, PruneStep, PruneStreamOutcome,
    policy_version_hash, prune_stream, pruning_report,
};
use graphql_orm_ai::inbox::stream::{
    AiInboxEventRecord, AiInboxStreamRecord, AiInboxWakeup, PreparedAiInboxEvent,
    append_inbox_event,
    inbox_stream_id, is_stream_consistent, valid_event_type, validate_stream,
};
use graphql_orm_ai::inbox::subscription::{
    InboxSubscription, ReplayNext, ReplayStep, check_subscription,
};
use graphql_orm_ai::principal::{AiScope, AuthPrincipal};
use graphql_orm_ai::records::{AiRetentionPolicyRecord, AiSessionRecord};
use graphql_orm_ai::scope::ai_scope_key;

const SESSION_ID: Uuid = 0x77;

fn scope() -> AiScope {
    AiScope::new("tenant", "t1").with_tenant_id("t1")
}

fn event(id: Uuid, created_at: i64) -> PreparedAiInboxEvent {
    PreparedAiInboxEvent {
        id,
        principal_kind: "user".to_owned(),
        principal_subject: "u1".to_owned(),
        scope: scope(),
        session_id: SESSION_ID,
        event_type: "run_completed".to_owned(),
        created_at,
    }
}

fn stream(head: i64, minimum: i64) -> AiInboxStreamRecord {
    AiInboxStreamRecord {
        id: inbox_stream_id("user", "u1"),
        principal_kind: "user".to_owned(),
        principal_subject: "u1".to_owned(),
        stream_head: head,
        minimum_retained_sequence: minimum,
        last_event_at: 0,
        row_version: 4,
    }
}

fn row(sequence: i64, created_at: i64) -> AiInboxEventRecord {
    AiInboxEventRecord {
        id: 0x100 + sequence as Uuid,
        principal_kind: "user".to_owned(),
        principal_subject: "u1".to_owned(),
        scope_key: ai_scope_key(&scope()),
        scope_kind: "tenant".to_owned(),
        scope_id: "t1".to_owned(),
        tenant_id: Some("t1".to_owned()),
        sequence,
        session_id: Some(SESSION_ID),
        event_type: "run_completed".to_owned(),
        created_at,
    }
}

fn policy() -> AiRetentionPolicyRecord {
    AiRetentionPolicyRecord {
        id: 0xaa,
        scope_key: Some(ai_scope_key(&scope())),
        scope_kind: "tenant".to_owned(),
        scope_id: "t1".to_owned(),
        tenant_id: Some("t1".to_owned()),
        message_retention_seconds: None,
        delta_retention_seconds: 60,
        raw_payload_retention_seconds: 60,
        audit_retention_seconds: 60,
        deleted_content_purge_seconds: 60,
        provider_file_delete_required: false,
        inbox_event_retention_seconds: Some(100),
        inbox_minimum_events: Some(2),
        row_version: 3,
        updated_at: 0,
    }
}

fn snapshot(
    stream: AiInboxStreamRecord,
    rows: Vec<AiInboxEventRecord>,
) -> PruneSnapshot {
    let policies = rows.iter().map(|_| vec![policy()]).collect();
    PruneSnapshot { expected_row_version: 4, stream: Some(stream), rows, policies }
}

#[test]
fn stream_identities_are_derived_from_the_principal() {
    assert_eq!(inbox_stream_id("user", "u1"), 0x2fd60da7_bfdf_8291_82f4_1a8b120fe920);
    assert_ne!(inbox_stream_id("user", "u2"), inbox_stream_id("user", "u1"));
}

#[test]
fn appends_extend_the_stream_without_gaps() {
    let first = append_inbox_event(&None, &event(1, 10)).expect("first append");
    assert_eq!(first.sequence, 1);
    let created = first.new_stream.expect("the first event creates the stream");
    assert_eq!(created.id, inbox_stream_id("user", "u1"));
    assert_eq!((created.stream_head, created.minimum_retained_sequence), (0, 1));
    assert_eq!(first.event.scope_key, ai_scope_key(&scope()));
    assert_eq!(first.event.session_id, Some(SESSION_ID));
    assert_eq!(first.expected_row_version, None);
    let wakeup = |sequence| AiInboxWakeup {
        principal_kind: "user".to_owned(),
        principal_subject: "u1".to_owned(),
        sequence,
    };
    assert_eq!(first.wakeup, wakeup(1));

    let next = append_inbox_event(&Some(stream(1, 1)), &event(2, 11)).expect("second append");
    assert_eq!(next.sequence, 2);
    assert!(next.new_stream.is_none());
    assert_eq!(next.event.sequence, 2);
    assert_eq!(next.expected_row_version, Some(4));
    assert_eq!(next.wakeup, wakeup(2));
    assert!(is_stream_consistent(&stream(next.sequence, 1)));

    let mut untyped = event(3, 12);
    untyped.event_type = "Run Completed".to_owned();
    assert_eq!(append_inbox_event(&None, &untyped).map(|_| ()), Err(OrmErrorCode::InvalidInput));
    let mut unnamed = event(3, 12);
    unnamed.principal_subject = " ".to_owned();
    assert_eq!(append_inbox_event(&None, &unnamed).map(|_| ()), Err(OrmErrorCode::InvalidInput));
    let mut foreign = stream(1, 1);
    foreign.principal_subject = "u2".to_owned();
    assert_eq!(
        append_inbox_event(&Some(foreign), &event(3, 12)).map(|_| ()),
        Err(OrmErrorCode::InternalError)
    );
    assert_eq!(
        append_inbox_event(&Some(stream(i64::MAX, 1)), &event(3, 12)).map(|_| ()),
        Err(OrmErrorCode::InternalError)
    );
    assert!(valid_event_type("a_1") && !valid_event_type("") && !valid_event_type("é"));
    assert!(!valid_event_type(&"a".repeat(129)));
    assert_eq!(validate_stream(&stream(1, 3)), Err(OrmErrorCode::InternalError));
    assert_eq!(validate_stream(&stream(1, 2)), Ok(()));
}

#[test]
fn windows_are_bounded_and_demand_resets() {
    let refused = Err(AiError::InvalidInput("invalid inbox event window".to_owned()));
    assert_eq!(check_window(0, 500), Ok(()));
    assert_eq!(check_window(-1, 1), refused);
    assert_eq!(check_window(1 << 31, 1), refused);
    assert_eq!(check_window(0, 0), refused);
    assert_eq!(check_window(0, 501), refused);

    let answered = |result| match result {
        Ok(PageStart::Answered(page)) => {
            let page: AiInboxEventPage = page;
            (page.watermark, page.reset_required)
        }
        other => panic!("unexpected start: {other:?}"),
    };
    assert_eq!(answered(begin_page(None, "user", "u1", 0, 10)), (0, false));
    assert_eq!(answered(begin_page(None, "user", "u1", 3, 10)), (0, true));
    assert_eq!(answered(begin_page(Some(stream(9, 5)), "user", "u1", 3, 10)), (9, true));
    let query = query(stream(9, 5), 4, 10);
    assert_eq!((query.after_sequence(), query.watermark(), query.limit()), (4, 9, 11));
    assert_eq!(
        begin_page(Some(stream(9, 5)), "user", "u2", 4, 10),
        Err(OrmErrorCode::InternalError)
    );
    assert_eq!(
        begin_page(Some(stream(1 << 31, 1)), "user", "u1", 4, 10),
        Err(OrmErrorCode::InvalidInput)
    );
}

fn query(stream: AiInboxStreamRecord, after: i64, first: i64) -> PageQuery {
    match begin_page(Some(stream), "user", "u1", after, first) {
        Ok(PageStart::Read(query)) => query,
        other => panic!("unexpected start: {other:?}"),
    }
}

fn session(subject: &str) -> AiSessionRecord {
    AiSessionRecord {
        id: SESSION_ID,
        owner_principal_kind: "user".to_owned(),
        owner_subject: subject.to_owned(),
        tenant_id: Some("t1".to_owned()),
        scope_kind: "tenant".to_owned(),
        scope_id: "t1".to_owned(),
        state: "active".to_owned(),
        stream_head: 0,
        message_head: 0,
        deleted_at: None,
        row_version: 1,
    }
}

fn protection(ready: bool) -> AiContentProtectionPolicy {
    AiContentProtectionPolicy {
        scope: scope(),
        mode: AiContentProtectionMode::DatabaseManaged,
        key_policy_reference: None,
        version: 1,
        ready,
    }
}

fn authority(session: AiSessionRecord) -> ContentAuthority {
    admit_row_session(&Some(session), &stream(9, 1))
        .and_then(|check| check.admit_access(true, true))
        .and_then(|check| check.admit_policy(protection(true)))
        .expect("the owner reads")
}

#[test]
fn windows_hold_exactly_their_opened_rows() {
    let rows = || vec![row(5, 0), row(6, 0), row(7, 0)];
    let authority = authority(session("u1"));
    // One row more than requested tells that the stream continues.
    let mut reader = query(stream(9, 1), 4, 2).read(rows());
    assert_eq!(reader.next_row(), Ok(Some((0x105, SESSION_ID))));
    assert_eq!(reader.take_payload(&authority, b"five".to_vec()), Ok(()));
    assert_eq!(reader.take_payload(&authority, b"six".to_vec()), Ok(()));
    assert_eq!(reader.next_row(), Ok(None));
    assert_eq!(
        reader.take_payload(&authority, b"seven".to_vec()),
        Err(AiError::PersistenceFailed)
    );
    let page = reader.finish().expect("all rows are opened");
    let sequences: Vec<i64> = page.events.iter().map(|event| event.sequence).collect();
    assert_eq!((sequences, page.watermark, page.has_more), (vec![5, 6], 9, true));
    assert_eq!(page.events[1].payload, b"six".to_vec());

    let page = query(stream(9, 1), 4, 3).read(Vec::new()).finish().expect("nothing to open");
    assert!(!page.has_more && page.events.is_empty());
    // Unopened rows, rows outside of the window, and foreign sessions.
    let reader = query(stream(9, 1), 4, 3).read(rows());
    assert_eq!(reader.finish().map(|_| ()), Err(AiError::PersistenceFailed));
    let mut outside = query(stream(9, 1), 4, 3).read(vec![row(4, 0)]);
    assert_eq!(outside.next_row(), Err(AiError::PersistenceFailed));
    assert_eq!(
        outside.take_payload(&authority, Vec::new()),
        Err(AiError::PersistenceFailed)
    );
    let mut other = row(5, 0);
    other.session_id = Some(0x78);
    let mut foreign = query(stream(9, 1), 4, 3).read(vec![other]);
    assert_eq!(foreign.take_payload(&authority, Vec::new()), Err(AiError::Forbidden));
}

#[test]
fn window_rows_must_belong_to_the_stream() {
    assert_eq!(admit_row(&row(5, 0), &stream(9, 1), 4), Ok(SESSION_ID));
    assert_eq!(admit_row(&row(4, 0), &stream(9, 1), 4), Err(AiError::PersistenceFailed));
    assert_eq!(admit_row(&row(10, 0), &stream(9, 1), 4), Err(AiError::PersistenceFailed));
    let mut orphan = row(5, 0);
    orphan.session_id = None;
    assert_eq!(admit_row(&orphan, &stream(9, 1), 4), Err(AiError::PersistenceFailed));
    let check = |session| admit_row_session(&session, &stream(9, 1));
    assert_eq!(check(Some(session("u2"))).map(|_| ()), Err(AiError::Forbidden));
    assert_eq!(check(None).map(|_| ()), Err(AiError::Forbidden));
    let owned = || check(Some(session("u1"))).expect("the owner reads");
    assert_eq!(owned().scope(), &scope());
    assert_eq!(owned().admit_access(true, false).map(|_| ()), Err(AiError::Forbidden));
    assert_eq!(owned().admit_access(false, true).map(|_| ()), Err(AiError::Forbidden));
    let granted = || owned().admit_access(true, true).expect("access is granted");
    assert_eq!(
        granted().admit_policy(protection(false)).map(|_| ()),
        Err(AiError::RuntimeNotReady)
    );
    let authority = granted().admit_policy(protection(true)).expect("authority");
    let context = inbox_event_context(0x105, &authority);
    assert_eq!(context.row_id(), "00000000-0000-0000-0000-000000000105");
    assert_eq!(context.entity(), "graphql_orm_ai_inbox_events");
}

fn page(sequences: &[i64], watermark: i64, has_more: bool) -> AiInboxEventPage {
    AiInboxEventPage {
        events: sequences
            .iter()
            .map(|sequence| inbox_event_view(&row(*sequence, 0), SESSION_ID, b"{}".to_vec()))
            .collect(),
        watermark,
        has_more,
        reset_required: false,
    }
}

/// Delivered sequences, with none for a demand to reset, and the watermark.
fn items(step: &ReplayStep) -> Vec<(Option<i64>, i64)> {
    step.envelopes
        .iter()
        .map(|envelope| {
            assert_eq!(envelope.reset_required, envelope.event.is_none());
            (envelope.event.as_ref().map(|event| event.sequence), envelope.watermark)
        })
        .collect()
}

#[test]
fn subscriptions_deliver_each_event_once() {
    let mut subscription = InboxSubscription::new(2);
    let step = subscription.take_page(page(&[3, 4], 6, true));
    assert_eq!(items(&step), vec![(Some(3), 6), (Some(4), 6)]);
    assert_eq!(step.next, ReplayNext::ReadNext);
    // The target of the replay stays; later events wait for the next one.
    let step = subscription.take_page(page(&[5, 6, 7], 9, true));
    assert_eq!(items(&step), vec![(Some(5), 6), (Some(6), 6)]);
    assert_eq!(step.next, ReplayNext::CaughtUp);
    assert_eq!(subscription.delivered_sequence, 6);
    assert!(!subscription.replay_required);
    subscription.take_wakeup("user", "u2", "user", "u1", 7);
    assert!(!subscription.replay_required);
    subscription.take_wakeup("user", "u1", "user", "u1", 6);
    assert!(!subscription.replay_required);
    subscription.take_wakeup("user", "u1", "user", "u1", 7);
    assert!(subscription.replay_required);
    let step = subscription.take_page(page(&[6, 7], 7, false));
    assert_eq!(items(&step), vec![(Some(7), 7)]);
    assert_eq!(step.next, ReplayNext::CaughtUp);
    subscription.take_lag();
    assert!(subscription.replay_required);
    assert!(!subscription.ended);
    // A window that ends before its target cannot be continued: the demand to
    // reset is the last item.
    let step = subscription.take_page(page(&[8], 9, false));
    assert_eq!(items(&step), vec![(Some(8), 9), (None, 9)]);
    assert_eq!(step.next, ReplayNext::Reset);
    assert!(subscription.ended);
}

#[test]
fn subscriptions_reset_on_lost_history() {
    let mut subscription = InboxSubscription::new(5);
    let step = subscription.take_page(page(&[], 4, false));
    assert_eq!(items(&step), vec![(None, 4)]);
    assert_eq!(step.next, ReplayNext::Reset);
    let mut subscription = InboxSubscription::new(5);
    let mut pruned = page(&[], 9, false);
    pruned.reset_required = true;
    let step = subscription.take_page(pruned);
    assert_eq!(items(&step), vec![(None, 9)]);
    assert_eq!(step.next, ReplayNext::Reset);

    let mut subscription = InboxSubscription::new(0);
    let own = AuthPrincipal::User { subject: "u1".to_owned() };
    assert_eq!(subscription.take_reauthorization(&own, "user", "u1"), Ok(()));
    let other = AuthPrincipal::User { subject: "u2".to_owned() };
    assert_eq!(
        subscription.take_reauthorization(&other, "user", "u1"),
        Err(AiError::ReauthorizationFailed)
    );
    let refused =
        Err(AiError::InvalidConfiguration("invalid AI inbox subscription bounds".to_owned()));
    assert_eq!(check_subscription(0, 1, 500), Ok(()));
    assert_eq!(check_subscription(-1, 1, 1), refused);
    assert_eq!(check_subscription(0, 0, 1), refused);
    assert_eq!(check_subscription(0, 1, 501), refused);
}

#[test]
fn pruning_deletes_the_oldest_expired_prefix() {
    // Five events, of which the first three are expired and two must stay.
    let rows =
        vec![row(1, 0), row(2, 10), row(3, 20), row(4, 950), row(5, 960)];
    let step = prune_stream(&snapshot(stream(5, 1), rows), 1_000).expect("plans");
    let plan = match step {
        PruneStep::Prune(plan) => plan,
        other => panic!("unexpected step: {other:?}"),
    };
    assert_eq!(plan.delete_ids, vec![0x101, 0x102, 0x103]);
    assert_eq!(plan.minimum_retained_sequence, 4);
    assert_eq!(plan.expected_row_version, 4);
    assert_eq!(
        plan.audit.policy_version.as_deref(),
        Some("e223a01771e232d6995b2a8432dfd88ca842f2d381016bdd0b8df21d787ec9bb")
    );
    assert_eq!(
        plan.audit.policy_version,
        Some(policy_version_hash(&vec!["00000000-0000-0000-0000-0000000000aa:3".to_owned()]))
    );
    assert_eq!(plan.audit.actor_principal_kind, "system");
    assert_eq!(plan.audit.action, "prune_inbox_events");
    assert_eq!(plan.audit.resource_reference, "2fd60da7-bfdf-8291-82f4-1a8b120fe920");
    assert_eq!(plan.audit.reason_code, "retention_prefix_expired");
    assert!(is_stream_consistent(&stream(5, plan.minimum_retained_sequence)));

    // The newest two events stay even where they are expired.
    let old = vec![row(1, 0), row(2, 0)];
    assert_eq!(prune_stream(&snapshot(stream(2, 1), old), 1_000), Ok(PruneStep::Noop));
    // A young event keeps everything behind it.
    let young = vec![row(1, 990), row(2, 0), row(3, 0), row(4, 0)];
    assert_eq!(prune_stream(&snapshot(stream(4, 1), young), 1_000), Ok(PruneStep::Noop));
}

#[test]
fn pruning_stops_at_unusable_state() {
    let mut missing = snapshot(stream(4, 1), vec![row(1, 0)]);
    missing.policies = vec![Vec::new()];
    assert_eq!(prune_stream(&missing, 1_000), Ok(PruneStep::NotReady));
    let mut ambiguous = snapshot(stream(4, 1), vec![row(1, 0)]);
    ambiguous.policies = vec![vec![policy(), policy()]];
    assert_eq!(
        prune_stream(&ambiguous, 1_000),
        Err(OrmErrorCode::AuthorizationMisconfigured)
    );
    let gap = snapshot(stream(4, 1), vec![row(2, 0)]);
    assert_eq!(prune_stream(&gap, 1_000), Err(OrmErrorCode::InternalError));
    let mut forged = row(1, 0);
    forged.scope_id = "t2".to_owned();
    assert_eq!(
        prune_stream(&snapshot(stream(4, 1), vec![forged]), 1_000),
        Err(OrmErrorCode::InternalError)
    );
    let mut changed = snapshot(stream(4, 1), vec![row(1, 0)]);
    changed.expected_row_version = 3;
    assert_eq!(prune_stream(&changed, 1_000), Ok(PruneStep::Conflict));
    let mut absent = snapshot(stream(4, 1), vec![]);
    absent.stream = None;
    assert_eq!(prune_stream(&absent, 1_000), Err(OrmErrorCode::NotFound));
    assert_eq!(
        prune_stream(&snapshot(stream(4, 5), vec![]), 1_000),
        Ok(PruneStep::Noop)
    );
    assert_eq!(
        prune_stream(&snapshot(stream(4, 1), vec![]), 1_000),
        Err(OrmErrorCode::InternalError)
    );
}

#[test]
fn pruning_reports_count_outcomes() {
    assert_eq!(
        pruning_report(&vec![
            PruneStreamOutcome::Pruned(3),
            PruneStreamOutcome::Noop,
            PruneStreamOutcome::NotReady,
            PruneStreamOutcome::Conflict,
            PruneStreamOutcome::Pruned(2),
        ]),
        Ok(AiInboxPruningReport {
            streams_scanned: 5,
            streams_pruned: 2,
            streams_not_ready: 1,
            streams_conflicted: 1,
            events_deleted: 5,
        })
    );
    assert_eq!(
        pruning_report(&vec![PruneStreamOutcome::Pruned(u32::MAX as usize + 1)]),
        Err(AiError::PersistenceFailed)
    );
    let limits = AiInboxPruningLimits::default();
    assert_eq!((limits.maximum_streams(), limits.maximum_events_per_stream()), (50, 500));
    assert!(AiInboxPruningLimits::new(0, 1).is_err());
    assert!(AiInboxPruningLimits::new(1, 0).is_err());
    assert!(AiInboxPruningLimits::new(1, 1).is_ok());
}
