//! Protected persistence of provisional visible provider output.

use crate::access::{AiRunLease, reference_text, valid_reference};
use crate::authority::{
    Actor, AuthorityCheck, ContentAuthority, ContentProtectionContext, ContextModel,
    authority_unchanged, fresh, require_unchanged_authority,
};
use crate::clock::{Duration, UtcTime};
use crate::digest::{Uuid, uuid_text};
use crate::error::{AiError, ErrorModel, accepted_or, invalid_configuration, outcome, refusal};
use crate::principal::{AiScope, ResolvedPrincipal, same_reference, same_scope};
use crate::provider::{ProviderKind, provider_kind_text};
use crate::text::{
    blank, bounded_text, byte_len, clone_text_option, is_blank, is_bounded_text, text_len,
};
use vstd::prelude::*;

verus! {

/// Deployment bounds for protected provisional provider events.
#[derive(Clone, Copy, Debug, PartialEq, Eq, Structural)]
pub struct AiLiveDeltaPersistenceLimits {
    maximum_batch_bytes: usize,
    maximum_principal_age: Duration,
}

impl AiLiveDeltaPersistenceLimits {
    /// Largest batch in bytes.
    pub closed spec fn batch_bytes(self) -> nat {
        self.maximum_batch_bytes as nat
    }

    /// Bound on the age of a principal resolution.
    pub closed spec fn principal_age(self) -> Duration {
        self.maximum_principal_age
    }

    /// Creates validated persistence bounds.
    ///
    /// # Errors
    ///
    /// Returns [`AiError::InvalidConfiguration`] unless a batch is bounded to
    /// `4..=4096` UTF-8 bytes and principal freshness is positive and no more
    /// than one hour.
    pub fn new(maximum_batch_bytes: usize, maximum_principal_age: Duration) -> (result: Result<
        Self,
        AiError,
    >)
        ensures
            ({
                let accepted = 4 <= maximum_batch_bytes <= 4_096 && 0 < maximum_principal_age.nanos
                    <= 3_600_000_000_000;
                match result {
                    Ok(limits) => accepted && limits.batch_bytes() == maximum_batch_bytes
                        && limits.principal_age() == maximum_principal_age,
                    Err(error) => !accepted && error@ == ErrorModel::InvalidConfiguration(
                        "invalid live-delta persistence limits"@,
                    ),
                }
            }),
    {
        if maximum_batch_bytes < 4 || maximum_batch_bytes > 4_096
            || !maximum_principal_age.is_positive() || maximum_principal_age.nanos
            > 3_600_000_000_000 {
            return Err(invalid_configuration("invalid live-delta persistence limits"));
        }
        Ok(AiLiveDeltaPersistenceLimits { maximum_batch_bytes, maximum_principal_age })
    }

    /// Maximum protected visible batch plaintext size.
    pub fn maximum_batch_bytes(self) -> (result: usize)
        ensures
            result == self.batch_bytes(),
    {
        self.maximum_batch_bytes
    }

    /// Maximum accepted age of each freshly resolved principal.
    pub fn maximum_principal_age(self) -> (result: Duration)
        ensures
            result == self.principal_age(),
    {
        self.maximum_principal_age
    }

    /// Accepts a worker's principal that is the lease's own and was resolved no
    /// longer ago than these limits accept.
    pub fn admit_principal(
        self,
        check: AuthorityCheck,
        principal: &ResolvedPrincipal,
        lease: &AiRunLease,
        now: UtcTime,
    ) -> (result: Result<AuthorityCheck, AiError>)
        requires
            check.wf(),
            check@.stage is Bound,
            check@.evidence.actor is Worker,
            principal.wf(),
            now.wf(),
        ensures
            refusal(result) == if principal.reference@ == lease.principal_reference@ && fresh(
                *principal,
                now,
                self.principal_age(),
            ) {
                None
            } else {
                Some(ErrorModel::ReauthorizationFailed)
            },
            result matches Ok(admitted) ==> {
                &&& admitted.wf()
                &&& admitted@.scope == check@.scope
                &&& admitted@.stage is Current
                &&& admitted@.session == check@.session
                &&& admitted@.evidence.actor == (Actor::Worker {
                    lease: check@.evidence.actor->lease,
                    principal: *principal,
                    now,
                    maximum_age: self.principal_age(),
                })
            },
    {
        if !same_reference(&principal.reference, &lease.principal_reference) {
            return Err(AiError::ReauthorizationFailed);
        }
        check.admit_principal(principal, now, self.maximum_principal_age)
    }
}

/// What a batch of live output holds.
#[derive(Clone, Copy, Debug, PartialEq, Eq, Structural)]
pub enum AiLiveDeltaKind {
    Text,
    ReasoningSummary,
}

/// Persisted spelling of a batch kind.
pub open spec fn live_delta_kind_text(kind: AiLiveDeltaKind) -> Seq<char> {
    match kind {
        AiLiveDeltaKind::Text => "text"@,
        AiLiveDeltaKind::ReasoningSummary => "reasoning_summary"@,
    }
}

/// Persisted spelling of a batch kind.
pub fn live_delta_kind_value(kind: AiLiveDeltaKind) -> (text: &'static str)
    ensures
        text@ == live_delta_kind_text(kind),
{
    match kind {
        AiLiveDeltaKind::Text => "text",
        AiLiveDeltaKind::ReasoningSummary => "reasoning_summary",
    }
}

/// One batch of visible provider output.
#[derive(Debug, PartialEq, Eq)]
pub struct AiLiveDeltaBatch {
    pub sequence: u64,
    pub kind: AiLiveDeltaKind,
    pub text: String,
}

/// The exact provider turn a batch belongs to.
#[derive(Debug, PartialEq, Eq)]
pub struct AiLiveDeltaPersistenceContext {
    pub session_id: Uuid,
    pub run_id: Uuid,
    pub attempt_id: Uuid,
    pub lease_generation: i64,
    pub scope: AiScope,
    pub correlation_id: String,
    pub provider_kind: ProviderKind,
    pub provider_model: String,
    pub provider_response_id: Option<String>,
    pub budget_reservation_id: Uuid,
}

/// Whether the batch belongs to the leased attempt, its references are usable,
/// and its text is within bounds.
pub open spec fn batch_admitted(
    lease: AiRunLease,
    context: AiLiveDeltaPersistenceContext,
    batch: AiLiveDeltaBatch,
    limits: AiLiveDeltaPersistenceLimits,
) -> bool {
    &&& lease.session_id == context.session_id
    &&& lease.run_id == context.run_id
    &&& lease.attempt_id == context.attempt_id
    &&& lease.lease_generation == context.lease_generation
    &&& !blank(context.scope.kind@)
    &&& !blank(context.scope.id@)
    &&& reference_text(context.correlation_id@)
    &&& bounded_text(context.provider_model@, 1_024)
    &&& context.provider_response_id matches Some(response) ==> reference_text(response@)
    &&& batch.text@.len() > 0
    &&& byte_len(batch.text@) <= limits.batch_bytes()
}

/// Accepts exactly the admitted batches.
pub fn admit_batch(
    lease: &AiRunLease,
    context: &AiLiveDeltaPersistenceContext,
    batch: &AiLiveDeltaBatch,
    limits: AiLiveDeltaPersistenceLimits,
) -> (result: Result<(), AiError>)
    ensures
        outcome(result) == accepted_or(
            batch_admitted(*lease, *context, *batch, limits),
            ErrorModel::Conflict,
        ),
{
    let response_valid: bool = match &context.provider_response_id {
        Some(response) => valid_reference(response.as_str()),
        None => true,
    };
    if lease.session_id == context.session_id && lease.run_id == context.run_id && lease.attempt_id
        == context.attempt_id && lease.lease_generation == context.lease_generation && !is_blank(
        context.scope.kind.as_str(),
    ) && !is_blank(context.scope.id.as_str()) && valid_reference(context.correlation_id.as_str())
        && is_bounded_text(context.provider_model.as_str(), 1_024) && response_valid
        && !batch.text.as_str().is_empty() && text_len(batch.text.as_str())
        <= limits.maximum_batch_bytes {
        Ok(())
    } else {
        Err(AiError::Conflict)
    }
}

/// Where the protected payload of a live-delta event belongs.
pub fn live_delta_context(event_id: Uuid, authority: &ContentAuthority) -> (context:
    ContentProtectionContext)
    requires
        authority.wf(),
    ensures
        context@ == (ContextModel {
            entity: "graphql_orm_ai_session_events"@,
            row_id: uuid_text(event_id),
            field: "protected_payload"@,
            scope: authority@.scope,
        }),
{
    authority.place("graphql_orm_ai_session_events", event_id, "protected_payload")
}

/// Fields of the plaintext payload that is protected for one batch.
#[derive(Debug, PartialEq, Eq)]
pub struct LiveDeltaPayload {
    pub format_version: u32,
    pub provisional: bool,
    pub run_id: Uuid,
    pub attempt_id: Uuid,
    pub lease_generation: i64,
    pub provider_kind: String,
    pub provider_model: String,
    pub provider_response_id: Option<String>,
    pub budget_reservation_id: Uuid,
    pub batch_sequence: u64,
    pub kind: String,
    pub text: String,
    pub byte_count: usize,
}

/// The payload of one batch.
pub fn live_delta_payload(
    lease: &AiRunLease,
    context: &AiLiveDeltaPersistenceContext,
    batch: &AiLiveDeltaBatch,
) -> (payload: LiveDeltaPayload)
    ensures
        payload.format_version == 1,
        payload.provisional,
        payload.run_id == lease.run_id,
        payload.attempt_id == lease.attempt_id,
        payload.lease_generation == lease.lease_generation,
        payload.provider_kind@ == provider_kind_text(context.provider_kind),
        payload.provider_model == context.provider_model,
        payload.provider_response_id == context.provider_response_id,
        payload.budget_reservation_id == context.budget_reservation_id,
        payload.batch_sequence == batch.sequence,
        payload.kind@ == live_delta_kind_text(batch.kind),
        payload.text == batch.text,
        payload.byte_count == byte_len(batch.text@),
{
    LiveDeltaPayload {
        format_version: 1,
        provisional: true,
        run_id: lease.run_id,
        attempt_id: lease.attempt_id,
        lease_generation: lease.lease_generation,
        provider_kind: context.provider_kind.as_str().to_owned(),
        provider_model: context.provider_model.clone(),
        provider_response_id: clone_text_option(&context.provider_response_id),
        budget_reservation_id: context.budget_reservation_id,
        batch_sequence: batch.sequence,
        kind: live_delta_kind_value(batch.kind).to_owned(),
        text: batch.text.clone(),
        byte_count: text_len(batch.text.as_str()),
    }
}

/// The event to append, apart from its protected payload.
#[derive(Debug, PartialEq, Eq)]
pub struct PreparedLiveDeltaEvent {
    pub id: Uuid,
    pub event_type: String,
    pub correlation_id: String,
    pub provider_kind: String,
    pub provider_model: String,
    pub budget_reservation_id: Uuid,
    pub expected_owner_principal_kind: String,
    pub expected_owner_subject: String,
    pub expected_scope_kind: String,
    pub expected_scope_id: String,
    pub expected_tenant_id: Option<String>,
}

/// Prepares the append of one admitted batch, fenced by the owner and scope
/// that the session had when the batch was authorized. The authority that the
/// payload was protected under must still be the current one.
pub fn prepare_live_delta(
    event_id: Uuid,
    started: &ContentAuthority,
    current: &ContentAuthority,
    lease: &AiRunLease,
    context: &AiLiveDeltaPersistenceContext,
    batch: &AiLiveDeltaBatch,
    limits: AiLiveDeltaPersistenceLimits,
) -> (result: Result<PreparedLiveDeltaEvent, AiError>)
    requires
        started.wf(),
        current.wf(),
    ensures
        refusal(result) == if !batch_admitted(*lease, *context, *batch, limits) {
            Some(ErrorModel::Conflict)
        } else if started@.scope@ != context.scope@ {
            Some(ErrorModel::Forbidden)
        } else if !authority_unchanged(*started, *current, *lease) {
            Some(ErrorModel::ReauthorizationFailed)
        } else {
            None
        },
        result matches Ok(event) ==> {
            let session = started@.session;
            &&& event.id == event_id
            &&& event.event_type@ == "provider_live_delta"@
            &&& event.correlation_id == context.correlation_id
            &&& event.provider_kind@ == provider_kind_text(context.provider_kind)
            &&& event.provider_model == context.provider_model
            &&& event.budget_reservation_id == context.budget_reservation_id
            &&& event.expected_owner_principal_kind == session.owner_principal_kind
            &&& event.expected_owner_subject == session.owner_subject
            &&& event.expected_scope_kind == session.scope_kind
            &&& event.expected_scope_id == session.scope_id
            &&& event.expected_tenant_id == session.tenant_id
        },
{
    match admit_batch(lease, context, batch, limits) {
        Ok(()) => {},
        Err(error) => return Err(error),
    }
    if !same_scope(started.scope(), &context.scope) {
        return Err(AiError::Forbidden);
    }
    match require_unchanged_authority(started, current, lease) {
        Ok(()) => {},
        Err(error) => return Err(error),
    }
    let session = started.session();
    Ok(
        PreparedLiveDeltaEvent {
            id: event_id,
            event_type: "provider_live_delta".to_owned(),
            correlation_id: context.correlation_id.clone(),
            provider_kind: context.provider_kind.as_str().to_owned(),
            provider_model: context.provider_model.clone(),
            budget_reservation_id: context.budget_reservation_id,
            expected_owner_principal_kind: session.owner_principal_kind.clone(),
            expected_owner_subject: session.owner_subject.clone(),
            expected_scope_kind: session.scope_kind.clone(),
            expected_scope_id: session.scope_id.clone(),
            expected_tenant_id: clone_text_option(&session.tenant_id),
        },
    )
}

/// A batch is admitted exactly where it is of the leased attempt, names usable
/// references, and holds some text within the bound.
pub proof fn batches_are_of_the_leased_attempt(
    lease: AiRunLease,
    context: AiLiveDeltaPersistenceContext,
    batch: AiLiveDeltaBatch,
    limits: AiLiveDeltaPersistenceLimits,
)
    ensures
        batch_admitted(lease, context, batch, limits) <==> {
            &&& context.session_id == lease.session_id && context.run_id == lease.run_id
            &&& context.attempt_id == lease.attempt_id && context.lease_generation
                == lease.lease_generation
            &&& !blank(context.scope.kind@) && !blank(context.scope.id@)
            &&& reference_text(context.correlation_id@)
            &&& !blank(context.provider_model@) && byte_len(context.provider_model@) <= 1_024
            &&& context.provider_response_id is Some ==> reference_text(
                context.provider_response_id->0@,
            )
            &&& 0 < batch.text@.len() && byte_len(batch.text@) <= limits.batch_bytes()
        },
        live_delta_kind_text(AiLiveDeltaKind::Text) == "text"@,
        live_delta_kind_text(AiLiveDeltaKind::ReasoningSummary) == "reasoning_summary"@,
{
}

} // verus!
