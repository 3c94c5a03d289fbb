//! Admission of budget reservations.
//!
//! A reservation is admitted only after the current run fence, the safe
//! principal reference, every applicable counter, the idempotency binding, the
//! deployment hard limit, and every policy ceiling have been checked. All
//! writes of an admitted reservation are planned together, so no counter is
//! written before every policy has been checked.

use crate::budget::amounts::{
    AiBudgetAmounts, StoredAmounts, added, addition_adds_every_unit, as_stored,
    bounds_hold_in_every_unit, checked_add, columns, columns_hold_their_units, covers, loaded,
    non_negative, storable, store_amounts, stored_amounts_round_trip, sum, units, zero_amounts,
};
use crate::budget::period::{BudgetPeriod, PeriodModel, budget_period, period_model};
use crate::budget::rows::{
    AiBudgetCounterRecord, AiBudgetPolicyRecord, AiBudgetReservation, AiBudgetReservationRecord,
    AiBudgetReservationState, PolicyCeilings, StoredActual, counter_committed, counter_reserved,
    readable_reservation, record_to_reservation, reservation_amounts, reservation_reads,
    reservation_state_round_trip,
};
use crate::clock::{Duration, UtcTime, calendar_second, fresh_within};
use crate::digest::Uuid;
use crate::error::{
    AiError, ErrorModel, accepted_or, invalid_configuration, invalid_input, outcome, refusal,
};
use crate::principal::{
    AiScope, AuthPrincipal, PrincipalReference, ResolvedPrincipal, ScopeModel, is_session_in_scope,
    principal_identity, principal_kind_text, principal_subject_text, same_reference,
    session_in_scope, tenant_agrees, tenant_matches, valid_scope, validate_fresh_principal,
    validate_scope,
};
use crate::provider::{ProviderKind, provider_kind_round_trip, provider_kind_text};
use crate::records::{AiRunRecord, AiSessionRecord};
use crate::scope::{ai_scope_key, scope_key_text};
use crate::text::{
    blank, bounded_text, byte_len, clone_text_option, is_bounded_text, same_text, same_text_option,
    text_option,
};
use vstd::prelude::*;

verus! {

/// Deployment-owned hard limits for the durable budget service.
///
/// Managed policies may only narrow these values. They cannot increase the
/// maximum size or lifetime of one provider reservation, accept an old
/// principal resolution, or cause an unbounded policy query.
#[derive(Clone, Copy, Debug, PartialEq, Eq, Structural)]
pub struct AiBudgetServiceLimits {
    maximum_per_call: AiBudgetAmounts,
    maximum_reservation_lifetime: Duration,
    maximum_principal_age: Duration,
    maximum_applicable_policies: usize,
    maximum_transaction_retries: usize,
}

impl AiBudgetServiceLimits {
    /// Limits that [`AiBudgetServiceLimits::new`] accepts.
    pub closed spec fn wf(self) -> bool {
        &&& self.maximum_per_call.runs > 0
        &&& self.maximum_reservation_lifetime.nanos > 0
        &&& self.maximum_reservation_lifetime.wf()
        &&& self.maximum_principal_age.nanos > 0
        &&& 1 <= self.maximum_applicable_policies <= 256
        &&& self.maximum_transaction_retries <= 16
    }

    /// Deployment maximum for one provider call.
    pub closed spec fn per_call(self) -> AiBudgetAmounts {
        self.maximum_per_call
    }

    /// Longest lifetime of one reservation.
    pub closed spec fn lifetime(self) -> Duration {
        self.maximum_reservation_lifetime
    }

    /// Oldest accepted principal resolution.
    pub closed spec fn principal_age(self) -> Duration {
        self.maximum_principal_age
    }

    /// Most policies that one scope may carry.
    pub closed spec fn policies(self) -> nat {
        self.maximum_applicable_policies as nat
    }

    /// Most repetitions of one transaction.
    pub closed spec fn retries(self) -> nat {
        self.maximum_transaction_retries as nat
    }

    /// Creates validated deployment hard limits.
    ///
    /// # Errors
    ///
    /// Returns [`AiError::InvalidConfiguration`] when calls cannot reserve one
    /// run, durations are not positive, the policy bound is outside `1..=256`,
    /// or more than 16 serialization retries are requested.
    pub fn new(
        maximum_per_call: AiBudgetAmounts,
        maximum_reservation_lifetime: Duration,
        maximum_principal_age: Duration,
        maximum_applicable_policies: usize,
        maximum_transaction_retries: usize,
    ) -> (result: Result<Self, AiError>)
        requires
            maximum_reservation_lifetime.wf(),
        ensures
            ({
                let accepted = maximum_per_call.runs > 0 && maximum_reservation_lifetime.nanos > 0
                    && maximum_principal_age.nanos > 0 && 1 <= maximum_applicable_policies <= 256
                    && maximum_transaction_retries <= 16;
                match result {
                    Ok(limits) => accepted && limits.wf() && limits.per_call() == maximum_per_call
                        && limits.lifetime() == maximum_reservation_lifetime
                        && limits.principal_age() == maximum_principal_age && limits.policies()
                        == maximum_applicable_policies && limits.retries()
                        == maximum_transaction_retries,
                    Err(error) => !accepted && error@ == ErrorModel::InvalidConfiguration(
                        "invalid deployment budget service limits"@,
                    ),
                }
            }),
    {
        if maximum_per_call.runs == 0 || !maximum_reservation_lifetime.is_positive()
            || !maximum_principal_age.is_positive() || maximum_applicable_policies < 1
            || maximum_applicable_policies > 256 || maximum_transaction_retries > 16 {
            return Err(invalid_configuration("invalid deployment budget service limits"));
        }
        Ok(
            AiBudgetServiceLimits {
                maximum_per_call,
                maximum_reservation_lifetime,
                maximum_principal_age,
                maximum_applicable_policies,
                maximum_transaction_retries,
            },
        )
    }

    /// Returns the deployment maximum for one provider call.
    pub fn maximum_per_call(&self) -> (result: AiBudgetAmounts)
        ensures
            result == self.per_call(),
    {
        self.maximum_per_call
    }

    /// Returns the maximum number of simultaneously applicable policies.
    pub fn maximum_applicable_policies(&self) -> (result: usize)
        ensures
            result == self.policies(),
    {
        self.maximum_applicable_policies
    }

    /// Returns the maximum accepted age of a principal resolution.
    pub fn maximum_principal_age(&self) -> (result: Duration)
        ensures
            result == self.principal_age(),
    {
        self.maximum_principal_age
    }

    /// Returns the maximum number of transaction retries.
    pub fn maximum_transaction_retries(&self) -> (result: usize)
        ensures
            result == self.retries(),
    {
        self.maximum_transaction_retries
    }
}

/// One requested reservation.
#[derive(Debug, PartialEq, Eq)]
pub struct AiBudgetReservationRequest {
    pub scope: AiScope,
    pub session_id: Uuid,
    pub run_id: Uuid,
    pub attempt_id: Uuid,
    pub lease_generation: i64,
    pub provider_kind: ProviderKind,
    pub model: String,
    pub pricing_policy_version: String,
    pub estimate: AiBudgetAmounts,
    pub idempotency_key: String,
    pub expires_at: UtcTime,
}

impl AiBudgetReservationRequest {
    /// Expiries are calendar instants.
    pub open spec fn wf(self) -> bool {
        self.expires_at.wf()
    }
}

/// Why a request is refused before any row is read, in the order of checks.
pub open spec fn request_refusal(
    principal: ResolvedPrincipal,
    request: AiBudgetReservationRequest,
    now: UtcTime,
    limits: AiBudgetServiceLimits,
) -> Option<ErrorModel> {
    let expires_at = UtcTime::at(request.expires_at.second());
    let latest = UtcTime { nanos: (now.nanos + limits.lifetime().nanos) as i128 };
    if !valid_scope(request.scope@) {
        Some(ErrorModel::InvalidInput("invalid AI scope"@))
    } else if !well_formed_request(request, limits) {
        Some(ErrorModel::InvalidInput("invalid budget reservation request"@))
    } else if !latest.wf() {
        Some(ErrorModel::InvalidConfiguration("budget time overflow"@))
    } else if !(now.nanos < expires_at.nanos <= latest.nanos) {
        Some(ErrorModel::InvalidInput("invalid budget reservation expiry"@))
    } else if !tenant_agrees(
        text_option(principal.reference.tenant_id),
        text_option(request.scope.tenant_id),
    ) {
        Some(ErrorModel::Forbidden)
    } else {
        None
    }
}

/// Requests with usable identifiers and bounded texts that reserve exactly one
/// run within the deployment maximum.
pub open spec fn well_formed_request(
    request: AiBudgetReservationRequest,
    limits: AiBudgetServiceLimits,
) -> bool {
    &&& request.session_id != 0
    &&& request.run_id != 0
    &&& request.attempt_id != 0
    &&& request.lease_generation > 0
    &&& bounded_text(request.model@, 200)
    &&& bounded_text(request.pricing_policy_version@, 200)
    &&& bounded_text(request.idempotency_key@, 256)
    &&& request.estimate.runs == 1
    &&& covers(limits.per_call(), request.estimate)
}

/// Checks a request against the deployment limits and the principal's tenant.
pub fn validate_reservation_request(
    principal: &ResolvedPrincipal,
    request: &AiBudgetReservationRequest,
    now: UtcTime,
    limits: AiBudgetServiceLimits,
) -> (result: Result<(), AiError>)
    requires
        request.wf(),
        now.wf(),
        limits.wf(),
    ensures
        refusal(result) == request_refusal(*principal, *request, now, limits),
{
    match validate_scope(&request.scope) {
        Ok(()) => {},
        Err(error) => return Err(error),
    }
    if request.session_id == 0 || request.run_id == 0 || request.attempt_id == 0
        || request.lease_generation <= 0 || !is_bounded_text(request.model.as_str(), 200)
        || !is_bounded_text(request.pricing_policy_version.as_str(), 200) || !is_bounded_text(
        request.idempotency_key.as_str(),
        256,
    ) || request.estimate.runs != 1 || !request.estimate.fits_within(limits.maximum_per_call) {
        return Err(invalid_input("invalid budget reservation request"));
    }
    let expires_at = request.expires_at.canonical_second();
    let latest: UtcTime = match now.checked_add(limits.maximum_reservation_lifetime) {
        Some(latest) => latest,
        None => return Err(invalid_configuration("budget time overflow")),
    };
    if expires_at.nanos <= now.nanos || expires_at.nanos > latest.nanos {
        return Err(invalid_input("invalid budget reservation expiry"));
    }
    if !tenant_matches(&principal.reference.tenant_id, &request.scope.tenant_id) {
        return Err(AiError::Forbidden);
    }
    Ok(())
}

/// Refuses a reservation before any row is read: a stale principal first, then
/// whatever [`validate_reservation_request`] refuses.
pub fn admit_reservation_request(
    principal: &ResolvedPrincipal,
    request: &AiBudgetReservationRequest,
    now: UtcTime,
    limits: AiBudgetServiceLimits,
) -> (result: Result<(), AiError>)
    requires
        principal.wf(),
        request.wf(),
        now.wf(),
        limits.wf(),
    ensures
        refusal(result) == if !fresh_within(
            principal.resolved_at,
            principal.reference.expires_at,
            now,
            limits.principal_age(),
        ) {
            Some(ErrorModel::ReauthorizationFailed)
        } else {
            request_refusal(*principal, *request, now, limits)
        },
{
    match validate_fresh_principal(principal, now, limits.maximum_principal_age) {
        Ok(()) => {},
        Err(error) => return Err(error),
    }
    validate_reservation_request(principal, request, now, limits)
}

/// Whether the lease is held by a named owner beyond `second`.
pub open spec fn lease_held(run: AiRunRecord, second: int) -> bool {
    &&& run.lease_owner matches Some(owner) && owner@.len() > 0
    &&& run.lease_expires_at matches Some(expires) && expires > second
}

/// Whether the lease is held by a named owner beyond `second`.
pub fn is_lease_held(run: &AiRunRecord, second: i64) -> (result: bool)
    ensures
        result == lease_held(*run, second as int),
{
    let owned: bool = match &run.lease_owner {
        Some(owner) => !owner.as_str().is_empty(),
        None => false,
    };
    let live: bool = match run.lease_expires_at {
        Some(expires) => expires > second,
        None => false,
    };
    owned && live
}

/// Whether the run is the running, leased attempt that the request names, and
/// the reservation does not outlive its lease.
pub open spec fn run_fenced(
    run: AiRunRecord,
    reference: PrincipalReference,
    request: AiBudgetReservationRequest,
    now: UtcTime,
) -> bool {
    &&& run.session_id == request.session_id
    &&& run.id == request.run_id
    &&& run.principal_reference matches Some(stored) && stored@ == reference@
    &&& run.state@ == "running"@
    &&& run.attempt_id == Some(request.attempt_id)
    &&& run.lease_generation == request.lease_generation
    &&& lease_held(run, now.second())
    &&& run.lease_expires_at matches Some(expires) && request.expires_at.second() <= expires
}

/// Accepts exactly the current fence of the request.
pub fn validate_run_fence(
    run: &AiRunRecord,
    principal_reference: &PrincipalReference,
    request: &AiBudgetReservationRequest,
    now: UtcTime,
) -> (result: Result<(), AiError>)
    requires
        request.wf(),
        now.wf(),
    ensures
        outcome(result) == if run.principal_reference is None {
            Err::<(), ErrorModel>(ErrorModel::PersistenceFailed)
        } else {
            accepted_or(
                run_fenced(*run, *principal_reference, *request, now),
                ErrorModel::Conflict,
            )
        },
{
    let same_principal: bool = match &run.principal_reference {
        Some(stored) => same_reference(stored, principal_reference),
        None => return Err(AiError::PersistenceFailed),
    };
    let expiry: i64 = request.expires_at.unix_timestamp();
    let outlives: bool = match run.lease_expires_at {
        Some(expires) => expiry > expires,
        None => true,
    };
    let same_attempt: bool = match run.attempt_id {
        Some(attempt) => attempt == request.attempt_id,
        None => false,
    };
    if run.session_id == request.session_id && run.id == request.run_id && same_principal
        && same_text(run.state.as_str(), "running") && same_attempt && run.lease_generation
        == request.lease_generation && is_lease_held(run, now.unix_timestamp()) && !outlives {
        Ok(())
    } else {
        Err(AiError::Conflict)
    }
}

/// Accepts exactly the active sessions of this principal in this scope.
pub fn validate_budget_session(
    session: &AiSessionRecord,
    principal_reference: &PrincipalReference,
    scope: &AiScope,
) -> (result: Result<(), AiError>)
    ensures
        outcome(result) == accepted_or(
            session_in_scope(*session, principal_reference@, scope@),
            ErrorModel::Forbidden,
        ),
{
    if is_session_in_scope(session, principal_reference, scope) {
        Ok(())
    } else {
        Err(AiError::Forbidden)
    }
}

/// The scope that a policy row names.
pub open spec fn policy_scope_model(policy: AiBudgetPolicyRecord) -> ScopeModel {
    ScopeModel {
        kind: policy.scope_kind@,
        id: policy.scope_id@,
        tenant_id: text_option(policy.tenant_id),
    }
}

/// Whether the policy row carries the key of its own scope and that scope is
/// the requested one, with or without its tenant.
pub open spec fn policy_in_scope(policy: AiBudgetPolicyRecord, scope: ScopeModel) -> bool {
    &&& policy.scope_key@ == scope_key_text(policy_scope_model(policy))
    &&& policy.scope_kind@ == scope.kind
    &&& policy.scope_id@ == scope.id
    &&& policy.tenant_id is None || text_option(policy.tenant_id) == scope.tenant_id
}

/// Whether the policy covers this principal in this scope.
pub open spec fn policy_covers(
    policy: AiBudgetPolicyRecord,
    scope: ScopeModel,
    principal_kind: Seq<char>,
    principal_subject: Seq<char>,
) -> bool {
    &&& policy_in_scope(policy, scope)
    &&& policy.principal_kind matches Some(kind) ==> kind@ == principal_kind
    &&& policy.principal_subject matches Some(subject) ==> subject@ == principal_subject
}

/// Whether the policy row is bound to the requested scope.
pub fn policy_scope_integrity(policy: &AiBudgetPolicyRecord, scope: &AiScope) -> (result: bool)
    ensures
        result == policy_in_scope(*policy, scope@),
{
    let own_scope = AiScope {
        kind: policy.scope_kind.clone(),
        id: policy.scope_id.clone(),
        tenant_id: clone_text_option(&policy.tenant_id),
    };
    let key = ai_scope_key(&own_scope);
    same_text(policy.scope_key.as_str(), key.as_str()) && same_text(
        policy.scope_kind.as_str(),
        scope.kind.as_str(),
    ) && same_text(policy.scope_id.as_str(), scope.id.as_str()) && (policy.tenant_id.is_none()
        || same_text_option(&policy.tenant_id, &scope.tenant_id))
}

/// Whether the policy covers this principal in this scope.
pub fn policy_applies(
    policy: &AiBudgetPolicyRecord,
    scope: &AiScope,
    principal_kind: &str,
    principal_subject: &str,
) -> (result: bool)
    ensures
        result == policy_covers(*policy, scope@, principal_kind@, principal_subject@),
{
    let kind_covers: bool = match &policy.principal_kind {
        Some(kind) => same_text(kind.as_str(), principal_kind),
        None => true,
    };
    let subject_covers: bool = match &policy.principal_subject {
        Some(subject) => same_text(subject.as_str(), principal_subject),
        None => true,
    };
    policy_scope_integrity(policy, scope) && kind_covers && subject_covers
}

/// The scope keys under which policies for a scope are stored: its own key,
/// and the key of the same scope in any tenant.
pub fn policy_scope_keys(scope: &AiScope) -> (keys: Vec<String>)
    ensures
        keys@.len() == if scope.tenant_id is Some {
            2nat
        } else {
            1nat
        },
        keys@[0]@ == scope_key_text(scope@),
        scope.tenant_id is Some ==> keys@[1]@ == scope_key_text(
            (ScopeModel { tenant_id: None, ..scope@ }),
        ),
{
    let mut keys: Vec<String> = Vec::new();
    keys.push(ai_scope_key(scope));
    if scope.tenant_id.is_some() {
        let wildcard = AiScope { kind: scope.kind.clone(), id: scope.id.clone(), tenant_id: None };
        keys.push(ai_scope_key(&wildcard));
    }
    keys
}

/// Why the loaded policies cannot admit a reservation.
pub open spec fn policies_refusal(
    policies: Seq<AiBudgetPolicyRecord>,
    scope: ScopeModel,
    principal_kind: Seq<char>,
    principal_subject: Seq<char>,
    maximum: nat,
) -> Option<ErrorModel> {
    if policies.len() > maximum {
        Some(ErrorModel::InvalidConfiguration("too many AI budget policies for one scope"@))
    } else if exists|i: int| 0 <= i < policies.len() && !policy_in_scope(#[trigger] policies[i], scope) {
        Some(ErrorModel::InvalidConfiguration("invalid AI budget policy scope binding"@))
    } else if covering(policies, scope, principal_kind, principal_subject).len() == 0 {
        Some(ErrorModel::BudgetDenied)
    } else {
        None
    }
}

/// Positions of the policies that cover the principal, in order.
pub open spec fn covering(
    policies: Seq<AiBudgetPolicyRecord>,
    scope: ScopeModel,
    principal_kind: Seq<char>,
    principal_subject: Seq<char>,
) -> Seq<int>
    decreases policies.len(),
{
    if policies.len() == 0 {
        Seq::empty()
    } else {
        let before = covering(policies.drop_last(), scope, principal_kind, principal_subject);
        if policy_covers(policies.last(), scope, principal_kind, principal_subject) {
            before.push(policies.len() - 1)
        } else {
            before
        }
    }
}

/// Positions of the policies that must admit a reservation.
///
/// Every loaded policy must be bound to the scope; at least one must cover the
/// principal.
pub fn applicable_policies(
    policies: &Vec<AiBudgetPolicyRecord>,
    scope: &AiScope,
    principal_kind: &str,
    principal_subject: &str,
    limits: AiBudgetServiceLimits,
) -> (result: Result<Vec<usize>, AiError>)
    ensures
        refusal(result) == policies_refusal(
            policies@,
            scope@,
            principal_kind@,
            principal_subject@,
            limits.policies(),
        ),
        result matches Ok(positions) ==> positions@.map_values(|position: usize| position as int)
            == covering(policies@, scope@, principal_kind@, principal_subject@),
        result matches Ok(positions) ==> forall|k: int|
            0 <= k < positions@.len() ==> #[trigger] positions@[k] < policies@.len(),
{
    if policies.len() > limits.maximum_applicable_policies {
        return Err(invalid_configuration("too many AI budget policies for one scope"));
    }
    let mut i: usize = 0;
    while i < policies.len()
        invariant
            i <= policies@.len(),
            policies@.len() <= limits.policies(),
            forall|k: int| 0 <= k < i ==> policy_in_scope(#[trigger] policies@[k], scope@),
        decreases policies@.len() - i,
    {
        if !policy_scope_integrity(&policies[i], scope) {
            return Err(invalid_configuration("invalid AI budget policy scope binding"));
        }
        i += 1;
    }
    let mut positions: Vec<usize> = Vec::new();
    let mut j: usize = 0;
    while j < policies.len()
        invariant
            j <= policies@.len(),
            positions@.map_values(|position: usize| position as int) == covering(
                policies@.subrange(0, j as int),
                scope@,
                principal_kind@,
                principal_subject@,
            ),
            forall|k: int| 0 <= k < positions@.len() ==> #[trigger] positions@[k] < policies@.len(),
        decreases policies@.len() - j,
    {
        let ghost before = positions@;
        proof {
            let next = policies@.subrange(0, j as int + 1);
            assert(next.drop_last() =~= policies@.subrange(0, j as int));
            assert(next.last() == policies@[j as int]);
        }
        if policy_applies(&policies[j], scope, principal_kind, principal_subject) {
            positions.push(j);
            proof {
                assert(positions@.map_values(|position: usize| position as int)
                    =~= before.map_values(|position: usize| position as int).push(j as int));
            }
        }
        j += 1;
    }
    proof {
        assert(policies@.subrange(0, j as int) =~= policies@);
        assert(positions@.map_values(|position: usize| position as int).len() == positions@.len());
    }
    if positions.len() == 0 {
        return Err(AiError::BudgetDenied);
    }
    Ok(positions)
}

/// Why one ceiling refuses a total.
pub open spec fn ceiling_refusal(maximum: Option<i64>, value: u64) -> Option<ErrorModel> {
    match maximum {
        Some(limit) => if limit < 0 {
            Some(ErrorModel::InvalidConfiguration("negative AI budget policy limit"@))
        } else if value > limit {
            Some(ErrorModel::BudgetDenied)
        } else {
            None
        },
        None => None,
    }
}

/// The first refusal of the two.
pub open spec fn or_else(
    first: Option<ErrorModel>,
    second: Option<ErrorModel>,
) -> Option<ErrorModel> {
    if first is Some {
        first
    } else {
        second
    }
}

/// Whether at least one unit has a ceiling.
pub open spec fn has_ceiling(maximum: PolicyCeilings) -> bool {
    ||| maximum.input_tokens is Some
    ||| maximum.output_tokens is Some
    ||| maximum.tool_units is Some
    ||| maximum.image_units is Some
    ||| maximum.cost_microunits is Some
    ||| maximum.runs is Some
}

/// Why the ceilings refuse these reserved and committed amounts: their sum is
/// not storable, a ceiling refuses its unit, or there is no ceiling at all.
pub open spec fn capacity_refusal(
    maximum: PolicyCeilings,
    reserved: AiBudgetAmounts,
    committed: AiBudgetAmounts,
) -> Option<ErrorModel> {
    match added(reserved, committed) {
        Err(error) => Some(error),
        Ok(total) => or_else(
            ceiling_refusal(maximum.input_tokens, total.input_tokens),
            or_else(
                ceiling_refusal(maximum.output_tokens, total.output_tokens),
                or_else(
                    ceiling_refusal(maximum.tool_units, total.tool_units),
                    or_else(
                        ceiling_refusal(maximum.image_units, total.image_units),
                        or_else(
                            ceiling_refusal(maximum.cost_microunits, total.cost_microunits),
                            or_else(
                                ceiling_refusal(maximum.runs, total.runs),
                                if has_ceiling(maximum) {
                                    None
                                } else {
                                    Some(
                                        ErrorModel::InvalidConfiguration(
                                            "AI budget policy has no ceiling"@,
                                        ),
                                    )
                                },
                            ),
                        ),
                    ),
                ),
            ),
        ),
    }
}

fn check_ceiling(maximum: Option<i64>, value: u64) -> (result: Result<(), AiError>)
    ensures
        refusal(result) == ceiling_refusal(maximum, value),
{
    match maximum {
        Some(limit) => {
            if limit < 0 {
                Err(invalid_configuration("negative AI budget policy limit"))
            } else if value > limit as u64 {
                Err(AiError::BudgetDenied)
            } else {
                Ok(())
            }
        },
        None => Ok(()),
    }
}

/// Accepts amounts that every ceiling of the policy admits.
pub fn validate_policy_capacity(
    policy: &AiBudgetPolicyRecord,
    reserved: AiBudgetAmounts,
    committed: AiBudgetAmounts,
) -> (result: Result<(), AiError>)
    ensures
        refusal(result) == capacity_refusal(policy.maximum, reserved, committed),
{
    let maximum: PolicyCeilings = policy.maximum;
    let total: AiBudgetAmounts = match checked_add(reserved, committed) {
        Ok(total) => total,
        Err(error) => return Err(error),
    };
    match check_ceiling(maximum.input_tokens, total.input_tokens) {
        Ok(()) => {},
        Err(error) => return Err(error),
    }
    match check_ceiling(maximum.output_tokens, total.output_tokens) {
        Ok(()) => {},
        Err(error) => return Err(error),
    }
    match check_ceiling(maximum.tool_units, total.tool_units) {
        Ok(()) => {},
        Err(error) => return Err(error),
    }
    match check_ceiling(maximum.image_units, total.image_units) {
        Ok(()) => {},
        Err(error) => return Err(error),
    }
    match check_ceiling(maximum.cost_microunits, total.cost_microunits) {
        Ok(()) => {},
        Err(error) => return Err(error),
    }
    match check_ceiling(maximum.runs, total.runs) {
        Ok(()) => {},
        Err(error) => return Err(error),
    }
    if maximum.input_tokens.is_none() && maximum.output_tokens.is_none()
        && maximum.tool_units.is_none() && maximum.image_units.is_none()
        && maximum.cost_microunits.is_none() && maximum.runs.is_none() {
        return Err(invalid_configuration("AI budget policy has no ceiling"));
    }
    Ok(())
}

/// One planned counter write.
#[derive(Debug, PartialEq, Eq)]
pub enum CounterWrite {
    /// Insert the first counter of a policy in a period.
    Insert {
        budget_policy_id: Uuid,
        policy_version: i64,
        period: BudgetPeriod,
        reserved: StoredAmounts,
        committed: StoredAmounts,
    },
    /// Replace the amounts of an existing counter, fenced by its row version.
    Update {
        counter_id: Uuid,
        expected_row_version: i64,
        policy_version: i64,
        period_started_at: i64,
        period_ends_at: i64,
        reserved: StoredAmounts,
        committed: StoredAmounts,
    },
}

/// Amounts a loaded counter holds; no counter means zero.
pub open spec fn held_amounts(stored: Option<StoredAmounts>) -> Result<AiBudgetAmounts, ErrorModel> {
    match stored {
        Some(columns) => loaded(columns),
        None => Ok(zero_amounts()),
    }
}

/// The reserved columns of the only loaded counter, where there is one.
pub open spec fn reserved_columns(counters: Seq<AiBudgetCounterRecord>) -> Option<StoredAmounts> {
    if counters.len() == 0 {
        None
    } else {
        Some(counters[0].reserved)
    }
}

/// The committed columns of the only loaded counter, where there is one.
pub open spec fn committed_columns(counters: Seq<AiBudgetCounterRecord>) -> Option<StoredAmounts> {
    if counters.len() == 0 {
        None
    } else {
        Some(counters[0].committed)
    }
}

/// Why one policy refuses the estimate, given the counters loaded for it.
pub open spec fn counter_refusal(
    policy: AiBudgetPolicyRecord,
    counters: Seq<AiBudgetCounterRecord>,
    estimate: AiBudgetAmounts,
    second: i64,
) -> Option<ErrorModel> {
    match (
        period_model(policy.interval_kind@, second as int),
        held_amounts(reserved_columns(counters)),
        held_amounts(committed_columns(counters)),
    ) {
        (Err(error), _, _) => Some(error),
        (Ok(_), reserved, committed) => if counters.len() > 1 {
            Some(ErrorModel::PersistenceFailed)
        } else {
            match (reserved, committed) {
                (Ok(reserved), Ok(committed)) => match added(reserved, estimate) {
                    Err(error) => Some(error),
                    Ok(next) => capacity_refusal(policy.maximum, next, committed),
                },
                _ => Some(ErrorModel::PersistenceFailed),
            }
        },
    }
}

/// Whether `write` adds exactly the estimate to what the loaded counter
/// reserves, keeps what it committed, and is bound to the policy and period.
pub open spec fn counter_planned(
    policy: AiBudgetPolicyRecord,
    counters: Seq<AiBudgetCounterRecord>,
    estimate: AiBudgetAmounts,
    second: i64,
    write: CounterWrite,
) -> bool {
    let held = held_amounts(reserved_columns(counters))->Ok_0;
    let settled = held_amounts(committed_columns(counters))->Ok_0;
    let next = as_stored(sum(held, estimate));
    let model = period_model(policy.interval_kind@, second as int)->Ok_0;
    match write {
        CounterWrite::Insert { budget_policy_id, policy_version, period, reserved, committed } => {
            &&& counters.len() == 0
            &&& budget_policy_id == policy.id
            &&& policy_version == policy.row_version
            &&& period@ == model
            &&& reserved == next
            &&& committed == as_stored(settled)
        },
        CounterWrite::Update {
            counter_id,
            expected_row_version,
            policy_version,
            period_started_at,
            period_ends_at,
            reserved,
            committed,
        } => {
            &&& counters.len() == 1
            &&& counter_id == counters[0].id
            &&& expected_row_version == counters[0].row_version
            &&& policy_version == policy.row_version
            &&& period_started_at == model.started_at
            &&& period_ends_at == model.ends_at
            &&& reserved == next
            &&& committed == as_stored(settled)
        },
    }
}

/// Plans the counter write of one policy, or says why the policy refuses.
pub fn plan_counter(
    policy: &AiBudgetPolicyRecord,
    counters: &Vec<AiBudgetCounterRecord>,
    estimate: AiBudgetAmounts,
    now: UtcTime,
) -> (result: Result<CounterWrite, AiError>)
    requires
        now.wf(),
    ensures
        refusal(result) == counter_refusal(*policy, counters@, estimate, now.second() as i64),
        result matches Ok(write) ==> counter_planned(
            *policy,
            counters@,
            estimate,
            now.second() as i64,
            write,
        ),
{
    let period: BudgetPeriod = match budget_period(policy.interval_kind.as_str(), now) {
        Ok(period) => period,
        Err(error) => return Err(error),
    };
    if counters.len() > 1 {
        return Err(AiError::PersistenceFailed);
    }
    let reserved: AiBudgetAmounts = if counters.len() == 0 {
        AiBudgetAmounts::default()
    } else {
        match counter_reserved(&counters[0]) {
            Ok(amounts) => amounts,
            Err(error) => return Err(error),
        }
    };
    let committed: AiBudgetAmounts = if counters.len() == 0 {
        AiBudgetAmounts::default()
    } else {
        match counter_committed(&counters[0]) {
            Ok(amounts) => amounts,
            Err(error) => return Err(error),
        }
    };
    let next_reserved: AiBudgetAmounts = match checked_add(reserved, estimate) {
        Ok(amounts) => amounts,
        Err(error) => return Err(error),
    };
    match validate_policy_capacity(policy, next_reserved, committed) {
        Ok(()) => {},
        Err(error) => return Err(error),
    }
    let next_stored: StoredAmounts = match store_amounts(next_reserved) {
        Ok(stored) => stored,
        Err(_) => return Err(AiError::PersistenceFailed),
    };
    let committed_stored: StoredAmounts = match store_amounts(committed) {
        Ok(stored) => stored,
        Err(_) => return Err(AiError::PersistenceFailed),
    };
    if counters.len() == 0 {
        Ok(
            CounterWrite::Insert {
                budget_policy_id: policy.id,
                policy_version: policy.row_version,
                period,
                reserved: next_stored,
                committed: committed_stored,
            },
        )
    } else {
        Ok(
            CounterWrite::Update {
                counter_id: counters[0].id,
                expected_row_version: counters[0].row_version,
                policy_version: policy.row_version,
                period_started_at: period.started_at,
                period_ends_at: period.ends_at,
                reserved: next_stored,
                committed: committed_stored,
            },
        )
    }
}

/// Whether the row records exactly this request for this principal.
pub open spec fn reservation_binds(
    record: AiBudgetReservationRecord,
    principal_kind: Seq<char>,
    principal_subject: Seq<char>,
    request: AiBudgetReservationRequest,
) -> bool {
    &&& record.scope_kind@ == request.scope.kind@
    &&& record.scope_id@ == request.scope.id@
    &&& text_option(record.tenant_id) == text_option(request.scope.tenant_id)
    &&& record.principal_kind@ == principal_kind
    &&& record.principal_subject@ == principal_subject
    &&& record.session_id == request.session_id
    &&& record.run_id == request.run_id
    &&& record.attempt_id == request.attempt_id
    &&& record.lease_generation == request.lease_generation
    &&& record.provider_kind@ == provider_kind_text(request.provider_kind)
    &&& record.provider_model@ == request.model@
    &&& record.pricing_policy_version@ == request.pricing_policy_version@
    &&& loaded(record.reserved) == Ok::<AiBudgetAmounts, ErrorModel>(request.estimate)
    &&& record.expires_at == request.expires_at.second()
}

/// Whether the row records exactly this request for this principal.
pub fn reservation_matches_request(
    record: &AiBudgetReservationRecord,
    principal_kind: &str,
    principal_subject: &str,
    request: &AiBudgetReservationRequest,
) -> (result: bool)
    requires
        request.wf(),
    ensures
        result == reservation_binds(*record, principal_kind@, principal_subject@, *request),
{
    let same_estimate: bool = match reservation_amounts(record) {
        Ok(amounts) => amounts == request.estimate,
        Err(_) => false,
    };
    same_text(record.scope_kind.as_str(), request.scope.kind.as_str()) && same_text(
        record.scope_id.as_str(),
        request.scope.id.as_str(),
    ) && same_text_option(&record.tenant_id, &request.scope.tenant_id) && same_text(
        record.principal_kind.as_str(),
        principal_kind,
    ) && same_text(record.principal_subject.as_str(), principal_subject) && record.session_id
        == request.session_id && record.run_id == request.run_id && record.attempt_id
        == request.attempt_id && record.lease_generation == request.lease_generation && same_text(
        record.provider_kind.as_str(),
        request.provider_kind.as_str(),
    ) && same_text(record.provider_model.as_str(), request.model.as_str()) && same_text(
        record.pricing_policy_version.as_str(),
        request.pricing_policy_version.as_str(),
    ) && same_estimate && record.expires_at == request.expires_at.unix_timestamp()
}

/// Every row that the admission of one reservation reads.
///
/// `existing` holds the reservations with the principal's idempotency key,
/// `policies` the enabled policies under [`policy_scope_keys`], and `counters`
/// for each position of [`applicable_policies`] the counters of that policy
/// with the key of its current period.
#[derive(Debug, PartialEq, Eq)]
pub struct ReservationSnapshot {
    pub run: Option<AiRunRecord>,
    pub session: Option<AiSessionRecord>,
    pub existing: Vec<AiBudgetReservationRecord>,
    pub policies: Vec<AiBudgetPolicyRecord>,
    pub counters: Vec<Vec<AiBudgetCounterRecord>>,
}

/// The reservation row to insert, apart from its identity and the identities
/// of the written counters.
#[derive(Debug, PartialEq, Eq)]
pub struct NewReservation {
    pub scope_kind: String,
    pub scope_id: String,
    pub tenant_id: Option<String>,
    pub principal_kind: String,
    pub principal_subject: String,
    pub session_id: Uuid,
    pub run_id: Uuid,
    pub attempt_id: Uuid,
    pub lease_generation: i64,
    pub provider_kind: String,
    pub provider_model: String,
    pub pricing_policy_version: String,
    pub reserved: StoredAmounts,
    pub idempotency_key: String,
    pub state: String,
    pub expires_at: i64,
}

/// What the host does to admit a reservation.
#[derive(Debug, PartialEq, Eq)]
pub enum ReservationStep {
    /// The same request was admitted before; nothing is written.
    Replay(AiBudgetReservation),
    /// Write every counter in order, then insert the reservation with the
    /// written counters' identities, all in the same transaction.
    Write { counters: Vec<CounterWrite>, reservation: NewReservation },
}

/// Why the rows refuse a reservation, in the order of checks.
pub open spec fn reservation_refusal(
    snapshot: ReservationSnapshot,
    principal: ResolvedPrincipal,
    request: AiBudgetReservationRequest,
    now: UtcTime,
    limits: AiBudgetServiceLimits,
) -> Option<ErrorModel> {
    let kind = principal_kind_text(principal.principal);
    let subject = principal_subject_text(principal.principal);
    let positions = covering(snapshot.policies@, request.scope@, kind, subject);
    if snapshot.run is None {
        Some(ErrorModel::Conflict)
    } else if snapshot.run->0.principal_reference is None {
        Some(ErrorModel::PersistenceFailed)
    } else if !run_fenced(snapshot.run->0, principal.reference, request, now) {
        Some(ErrorModel::Conflict)
    } else if snapshot.session is None {
        Some(ErrorModel::Conflict)
    } else if !session_in_scope(snapshot.session->0, principal.reference@, request.scope@) {
        Some(ErrorModel::Forbidden)
    } else if snapshot.existing@.len() > 1 {
        Some(ErrorModel::PersistenceFailed)
    } else if snapshot.existing@.len() == 1 {
        let existing = snapshot.existing@[0];
        if !reservation_binds(existing, kind, subject, request) || existing.state@ != "reserved"@ {
            Some(ErrorModel::Conflict)
        } else if !readable_reservation(existing) {
            Some(ErrorModel::PersistenceFailed)
        } else {
            None
        }
    } else {
        or_else(
            policies_refusal(snapshot.policies@, request.scope@, kind, subject, limits.policies()),
            first_counter_refusal(
                snapshot,
                positions,
                request.estimate,
                now.second() as i64,
                positions.len(),
            ),
        )
    }
}

/// The refusal of the first of the first `count` covering policies that
/// refuses.
pub open spec fn first_counter_refusal(
    snapshot: ReservationSnapshot,
    positions: Seq<int>,
    estimate: AiBudgetAmounts,
    second: i64,
    count: nat,
) -> Option<ErrorModel>
    decreases count,
{
    if count == 0 {
        None
    } else {
        or_else(
            first_counter_refusal(snapshot, positions, estimate, second, (count - 1) as nat),
            counter_refusal(
                snapshot.policies@[positions[count - 1]],
                snapshot.counters@[count - 1]@,
                estimate,
                second,
            ),
        )
    }
}

/// Whether the row to insert records exactly this request for this principal,
/// in the reserved state.
pub open spec fn reservation_recorded(
    row: NewReservation,
    principal: ResolvedPrincipal,
    request: AiBudgetReservationRequest,
) -> bool {
    &&& row.scope_kind == request.scope.kind
    &&& row.scope_id == request.scope.id
    &&& row.tenant_id == request.scope.tenant_id
    &&& row.principal_kind@ == principal_kind_text(principal.principal)
    &&& row.principal_subject@ == principal_subject_text(principal.principal)
    &&& row.session_id == request.session_id
    &&& row.run_id == request.run_id
    &&& row.attempt_id == request.attempt_id
    &&& row.lease_generation == request.lease_generation
    &&& row.provider_kind@ == provider_kind_text(request.provider_kind)
    &&& row.provider_model == request.model
    &&& row.pricing_policy_version == request.pricing_policy_version
    &&& row.reserved == as_stored(request.estimate)
    &&& row.idempotency_key == request.idempotency_key
    &&& row.state@ == "reserved"@
    &&& row.expires_at == request.expires_at.second()
}

/// Decides one reservation from the rows it depends on.
///
/// The decision is a replay exactly where one reservation already carries the
/// idempotency key; otherwise every covering policy admits the estimate and
/// the plan holds one counter write for each of them.
#[verifier::rlimit(40)]
pub fn reserve_once(
    snapshot: &ReservationSnapshot,
    principal: &ResolvedPrincipal,
    request: &AiBudgetReservationRequest,
    now: UtcTime,
    limits: AiBudgetServiceLimits,
) -> (result: Result<ReservationStep, AiError>)
    requires
        request.wf(),
        now.wf(),
        policies_refusal(
            snapshot.policies@,
            request.scope@,
            principal_kind_text(principal.principal),
            principal_subject_text(principal.principal),
            limits.policies(),
        ) is None ==> snapshot.counters@.len() == covering(
            snapshot.policies@,
            request.scope@,
            principal_kind_text(principal.principal),
            principal_subject_text(principal.principal),
        ).len(),
    ensures
        refusal(result) == reservation_refusal(*snapshot, *principal, *request, now, limits),
        match result {
            Ok(ReservationStep::Replay(reservation)) => snapshot.existing@.len() == 1
                && reservation_reads(snapshot.existing@[0], reservation),
            Ok(ReservationStep::Write { counters, reservation }) => {
                let positions = covering(
                    snapshot.policies@,
                    request.scope@,
                    principal_kind_text(principal.principal),
                    principal_subject_text(principal.principal),
                );
                &&& snapshot.existing@.len() == 0
                &&& counters@.len() == positions.len()
                &&& forall|k: int|
                    0 <= k < counters@.len() ==> counter_planned(
                        snapshot.policies@[positions[k]],
                        snapshot.counters@[k]@,
                        request.estimate,
                        now.second() as i64,
                        #[trigger] counters@[k],
                    )
                &&& reservation_recorded(reservation, *principal, *request)
            },
            Err(_) => true,
        },
{
    let run: &AiRunRecord = match &snapshot.run {
        Some(run) => run,
        None => return Err(AiError::Conflict),
    };
    match validate_run_fence(run, &principal.reference, request, now) {
        Ok(()) => {},
        Err(error) => return Err(error),
    }
    let session: &AiSessionRecord = match &snapshot.session {
        Some(session) => session,
        None => return Err(AiError::Conflict),
    };
    match validate_budget_session(session, &principal.reference, &request.scope) {
        Ok(()) => {},
        Err(error) => return Err(error),
    }
    let (principal_kind, principal_subject) = principal_identity(&principal.principal);
    if snapshot.existing.len() > 1 {
        return Err(AiError::PersistenceFailed);
    }
    if snapshot.existing.len() == 1 {
        let existing = &snapshot.existing[0];
        if !reservation_matches_request(
            existing,
            principal_kind.as_str(),
            principal_subject.as_str(),
            request,
        ) || !same_text(existing.state.as_str(), "reserved") {
            return Err(AiError::Conflict);
        }
        return match record_to_reservation(existing) {
            Ok(reservation) => Ok(ReservationStep::Replay(reservation)),
            Err(error) => Err(error),
        };
    }
    let positions: Vec<usize> = match applicable_policies(
        &snapshot.policies,
        &request.scope,
        principal_kind.as_str(),
        principal_subject.as_str(),
        limits,
    ) {
        Ok(positions) => positions,
        Err(error) => return Err(error),
    };
    let ghost chosen = covering(
        snapshot.policies@,
        request.scope@,
        principal_kind_text(principal.principal),
        principal_subject_text(principal.principal),
    );
    proof {
        assert(chosen.len() == positions@.len());
        assert forall|k: int| 0 <= k < positions@.len() implies chosen[k] == positions@[k] by {
            assert(positions@.map_values(|position: usize| position as int)[k] == positions@[k]);
        }
    }
    let mut counters: Vec<CounterWrite> = Vec::new();
    let mut i: usize = 0;
    while i < positions.len()
        invariant
            now.wf(),
            i <= positions@.len(),
            positions@.len() == chosen.len(),
            snapshot.counters@.len() == chosen.len(),
            counters@.len() == i,
            reservation_refusal(*snapshot, *principal, *request, now, limits)
                == first_counter_refusal(
                *snapshot,
                chosen,
                request.estimate,
                now.second() as i64,
                chosen.len(),
            ),
            forall|k: int| 0 <= k < positions@.len() ==> chosen[k] == positions@[k],
            forall|k: int|
                0 <= k < positions@.len() ==> #[trigger] positions@[k] < snapshot.policies@.len(),
            first_counter_refusal(
                *snapshot,
                chosen,
                request.estimate,
                now.second() as i64,
                i as nat,
            ) is None,
            forall|k: int|
                0 <= k < i ==> counter_planned(
                    snapshot.policies@[chosen[k]],
                    snapshot.counters@[k]@,
                    request.estimate,
                    now.second() as i64,
                    #[trigger] counters@[k],
                ),
        decreases positions@.len() - i,
    {
        let position: usize = positions[i];
        match plan_counter(
            &snapshot.policies[position],
            &snapshot.counters[i],
            request.estimate,
            now,
        ) {
            Ok(write) => {
                counters.push(write);
            },
            Err(error) => {
                proof {
                    lemma_first_refusal_stays(
                        *snapshot,
                        chosen,
                        request.estimate,
                        now.second() as i64,
                        (i + 1) as nat,
                        chosen.len(),
                    );
                }
                return Err(error);
            },
        }
        i += 1;
    }
    proof {
        lemma_admitted_estimate_storable(
            *snapshot,
            chosen,
            request.estimate,
            now.second() as i64,
            chosen.len(),
        );
    }
    let reserved: StoredAmounts = match store_amounts(request.estimate) {
        Ok(stored) => stored,
        Err(_) => return Err(AiError::PersistenceFailed),
    };
    let reservation = NewReservation {
        scope_kind: request.scope.kind.clone(),
        scope_id: request.scope.id.clone(),
        tenant_id: clone_text_option(&request.scope.tenant_id),
        principal_kind,
        principal_subject,
        session_id: request.session_id,
        run_id: request.run_id,
        attempt_id: request.attempt_id,
        lease_generation: request.lease_generation,
        provider_kind: request.provider_kind.as_str().to_owned(),
        provider_model: request.model.clone(),
        pricing_policy_version: request.pricing_policy_version.clone(),
        reserved,
        idempotency_key: request.idempotency_key.clone(),
        state: "reserved".to_owned(),
        expires_at: request.expires_at.unix_timestamp(),
    };
    Ok(ReservationStep::Write { counters, reservation })
}

proof fn lemma_first_refusal_stays(
    snapshot: ReservationSnapshot,
    positions: Seq<int>,
    estimate: AiBudgetAmounts,
    second: i64,
    known: nat,
    count: nat,
)
    requires
        known <= count,
        first_counter_refusal(snapshot, positions, estimate, second, known) is Some,
    ensures
        first_counter_refusal(snapshot, positions, estimate, second, count)
            == first_counter_refusal(snapshot, positions, estimate, second, known),
    decreases count,
{
    if known < count {
        lemma_first_refusal_stays(
            snapshot,
            positions,
            estimate,
            second,
            known,
            (count - 1) as nat,
        );
    }
}

proof fn lemma_admitted_estimate_storable(
    snapshot: ReservationSnapshot,
    positions: Seq<int>,
    estimate: AiBudgetAmounts,
    second: i64,
    count: nat,
)
    requires
        count > 0,
        first_counter_refusal(snapshot, positions, estimate, second, count) is None,
    ensures
        storable(estimate),
{
}

/// An admitted counter write never overspends: for every unit with a ceiling,
/// what the counter reserves and has committed after the write is at most the
/// ceiling, and the write adds exactly the estimate.
pub proof fn admitted_write_respects_ceilings(
    policy: AiBudgetPolicyRecord,
    counters: Seq<AiBudgetCounterRecord>,
    estimate: AiBudgetAmounts,
    second: i64,
    write: CounterWrite,
)
    requires
        counter_refusal(policy, counters, estimate, second) is None,
        counter_planned(policy, counters, estimate, second, write),
    ensures
        ({
            let (reserved, committed) = written_amounts(write);
            &&& within_ceilings(policy.maximum, reserved, committed)
            &&& loaded(reserved) == Ok::<AiBudgetAmounts, ErrorModel>(
                sum(held_amounts(reserved_columns(counters))->Ok_0, estimate),
            )
            &&& loaded(committed) == held_amounts(committed_columns(counters))
        }),
{
}

/// Reserved and committed columns that a counter write leaves behind.
pub open spec fn written_amounts(write: CounterWrite) -> (StoredAmounts, StoredAmounts) {
    match write {
        CounterWrite::Insert { reserved, committed, .. } => (reserved, committed),
        CounterWrite::Update { reserved, committed, .. } => (reserved, committed),
    }
}

/// Whether reserved plus committed stays within every ceiling.
pub open spec fn within_ceilings(
    maximum: PolicyCeilings,
    reserved: StoredAmounts,
    committed: StoredAmounts,
) -> bool {
    &&& maximum.input_tokens matches Some(limit) ==> reserved.input_tokens + committed.input_tokens
        <= limit
    &&& maximum.output_tokens matches Some(limit) ==> reserved.output_tokens
        + committed.output_tokens <= limit
    &&& maximum.tool_units matches Some(limit) ==> reserved.tool_units + committed.tool_units
        <= limit
    &&& maximum.image_units matches Some(limit) ==> reserved.image_units + committed.image_units
        <= limit
    &&& maximum.cost_microunits matches Some(limit) ==> reserved.cost_microunits
        + committed.cost_microunits <= limit
    &&& maximum.runs matches Some(limit) ==> reserved.runs + committed.runs <= limit
}

/// The row that inserting a planned reservation creates.
pub open spec fn inserted_reservation(
    row: NewReservation,
    id: Uuid,
    counter_ids: Vec<Uuid>,
    row_version: i64,
) -> AiBudgetReservationRecord {
    AiBudgetReservationRecord {
        id,
        budget_counter_ids: Some(counter_ids),
        scope_kind: row.scope_kind,
        scope_id: row.scope_id,
        tenant_id: row.tenant_id,
        principal_kind: row.principal_kind,
        principal_subject: row.principal_subject,
        session_id: row.session_id,
        run_id: row.run_id,
        attempt_id: row.attempt_id,
        lease_generation: row.lease_generation,
        provider_kind: row.provider_kind,
        provider_model: row.provider_model,
        pricing_policy_version: row.pricing_policy_version,
        reserved: row.reserved,
        actual: StoredActual {
            input_tokens: None,
            output_tokens: None,
            tool_units: None,
            image_units: None,
            cost_microunits: None,
            runs: None,
        },
        actual_cached_input_tokens: None,
        idempotency_key: row.idempotency_key,
        state: row.state,
        expires_at: row.expires_at,
        reconciled_at: None,
        row_version,
    }
}

/// Repeating an admitted request is idempotent: against the row that the first
/// admission inserted, the same request by the same principal is a replay of
/// that row and is not refused, as long as its fence and session still hold.
pub proof fn admitted_reservation_replays(
    snapshot: ReservationSnapshot,
    principal: ResolvedPrincipal,
    request: AiBudgetReservationRequest,
    now: UtcTime,
    limits: AiBudgetServiceLimits,
    row: NewReservation,
    id: Uuid,
    counter_ids: Vec<Uuid>,
    row_version: i64,
)
    requires
        request.wf(),
        storable(request.estimate),
        reservation_recorded(row, principal, request),
        snapshot.run matches Some(run) && run_fenced(run, principal.reference, request, now),
        snapshot.session matches Some(session) && session_in_scope(
            session,
            principal.reference@,
            request.scope@,
        ),
        snapshot.existing@ == seq![inserted_reservation(row, id, counter_ids, row_version)],
    ensures
        reservation_refusal(snapshot, principal, request, now, limits) is None,
{
    provider_kind_round_trip(request.provider_kind, row.provider_kind@);
    stored_amounts_round_trip(request.estimate);
    reservation_state_round_trip(AiBudgetReservationState::Reserved);
    let record = inserted_reservation(row, id, counter_ids, row_version);
    assert(snapshot.existing@[0] == record);
    assert(calendar_second(request.expires_at.second()));
    assert(readable_reservation(record));
}

/// A policy governs exactly the requests of its scope by the principals it
/// names. It carries the key of its own scope; a policy without a tenant
/// governs every tenant of the scope, one without a principal everybody, and
/// one that names a principal nobody else.
pub proof fn policies_govern_whom_they_name(
    policy: AiBudgetPolicyRecord,
    scope: AiScope,
    principal: AuthPrincipal,
)
    ensures
        policy_covers(
            policy,
            scope@,
            principal_kind_text(principal),
            principal_subject_text(principal),
        ) <==> {
            &&& policy.scope_key@ == scope_key_text(
                (ScopeModel {
                    kind: policy.scope_kind@,
                    id: policy.scope_id@,
                    tenant_id: text_option(policy.tenant_id),
                }),
            )
            &&& policy.scope_kind@ == scope.kind@
            &&& policy.scope_id@ == scope.id@
            &&& policy.tenant_id is None || scope.tenant_id is Some && policy.tenant_id->0@
                == scope.tenant_id->0@
            &&& policy.principal_kind is None || policy.principal_kind->0@ == principal_kind_text(
                principal,
            )
            &&& policy.principal_subject is None || policy.principal_subject->0@
                == principal_subject_text(principal)
        },
{
}

/// Whether a policy names another principal than this one.
pub open spec fn names_another(
    policy: AiBudgetPolicyRecord,
    kind: Seq<char>,
    subject: Seq<char>,
) -> bool {
    ||| policy.principal_subject is Some && policy.principal_subject->0@ != subject
    ||| policy.principal_kind is Some && policy.principal_kind->0@ != kind
}

/// The covering policies are all of those that name no other principal, each
/// once and in the order in which they were loaded.
pub proof fn covering_policies_are_all_of_the_principals(
    policies: Seq<AiBudgetPolicyRecord>,
    scope: ScopeModel,
    kind: Seq<char>,
    subject: Seq<char>,
)
    requires
        forall|i: int| 0 <= i < policies.len() ==> policy_in_scope(#[trigger] policies[i], scope),
    ensures
        forall|i: int|
            0 <= i < policies.len() ==> (covering(policies, scope, kind, subject).contains(i)
                <==> !names_another(#[trigger] policies[i], kind, subject)),
        forall|k: int|
            0 <= k < covering(policies, scope, kind, subject).len() ==> 0
                <= #[trigger] covering(policies, scope, kind, subject)[k] < policies.len(),
        forall|j: int, k: int|
            0 <= j < k < covering(policies, scope, kind, subject).len() ==> covering(
                policies,
                scope,
                kind,
                subject,
            )[j] < covering(policies, scope, kind, subject)[k],
    decreases policies.len(),
{
    if policies.len() > 0 {
        let rest = policies.drop_last();
        let last = policies.len() - 1;
        assert(policy_in_scope(policies[last], scope));
        assert forall|i: int| 0 <= i < rest.len() implies policy_in_scope(
            #[trigger] rest[i],
            scope,
        ) by {
            assert(rest[i] == policies[i]);
        }
        covering_policies_are_all_of_the_principals(rest, scope, kind, subject);
        let before = covering(rest, scope, kind, subject);
        let after = covering(policies, scope, kind, subject);
        assert forall|i: int| 0 <= i < policies.len() implies (after.contains(i)
            <==> !names_another(#[trigger] policies[i], kind, subject)) by {
            if i < last {
                assert(rest[i] == policies[i]);
                if before.contains(i) {
                    let at = choose|at: int| 0 <= at < before.len() && before[at] == i;
                    assert(after[at] == i);
                }
                if after.contains(i) {
                    let at = choose|at: int| 0 <= at < after.len() && after[at] == i;
                    assert(before[at] == i);
                }
            } else {
                if policy_covers(policies[last], scope, kind, subject) {
                    assert(after[before.len() as int] == last);
                } else if after.contains(i) {
                    let at = choose|at: int| 0 <= at < after.len() && after[at] == i;
                    assert(before[at] < last);
                }
            }
        }
    }
}

/// A reservation is counted against the caller's own allowances alone: every
/// counter that it writes is of a loaded policy that names no other principal,
/// and every such policy has its counter written.
pub proof fn counters_are_of_the_callers_policies(
    snapshot: ReservationSnapshot,
    principal: ResolvedPrincipal,
    request: AiBudgetReservationRequest,
    now: UtcTime,
    limits: AiBudgetServiceLimits,
    index: int,
)
    requires
        snapshot.existing@.len() == 0,
        reservation_refusal(snapshot, principal, request, now, limits) is None,
        0 <= index < snapshot.policies@.len(),
    ensures
        ({
            let kind = principal_kind_text(principal.principal);
            let subject = principal_subject_text(principal.principal);
            let policy = snapshot.policies@[index];
            covering(snapshot.policies@, request.scope@, kind, subject).contains(index) <==> (
            policy.principal_subject is None || policy.principal_subject->0@ == subject) && (
            policy.principal_kind is None || policy.principal_kind->0@ == kind)
        }),
{
    let kind = principal_kind_text(principal.principal);
    let subject = principal_subject_text(principal.principal);
    covering_policies_are_all_of_the_principals(
        snapshot.policies@,
        request.scope@,
        kind,
        subject,
    );
}

/// Where a position stands once the policy at `index` is gone.
spec fn shifted(position: int, index: int) -> int {
    if position > index {
        position - 1
    } else {
        position
    }
}

proof fn lemma_covering_in_range(
    policies: Seq<AiBudgetPolicyRecord>,
    scope: ScopeModel,
    kind: Seq<char>,
    subject: Seq<char>,
)
    ensures
        forall|k: int|
            0 <= k < covering(policies, scope, kind, subject).len() ==> 0
                <= #[trigger] covering(policies, scope, kind, subject)[k] < policies.len()
                && policy_covers(
                policies[covering(policies, scope, kind, subject)[k]],
                scope,
                kind,
                subject,
            ),
    decreases policies.len(),
{
    if policies.len() > 0 {
        let rest = policies.drop_last();
        lemma_covering_in_range(rest, scope, kind, subject);
        let before = covering(rest, scope, kind, subject);
        let after = covering(policies, scope, kind, subject);
        assert forall|k: int| 0 <= k < after.len() implies 0 <= #[trigger] after[k]
            < policies.len() && policy_covers(policies[after[k]], scope, kind, subject) by {
            if k < before.len() {
                assert(after[k] == before[k]);
                assert(rest[before[k]] == policies[before[k]]);
            }
        }
    }
}

proof fn lemma_covering_without(
    policies: Seq<AiBudgetPolicyRecord>,
    scope: ScopeModel,
    kind: Seq<char>,
    subject: Seq<char>,
    index: int,
)
    requires
        0 <= index < policies.len(),
        !policy_covers(policies[index], scope, kind, subject),
    ensures
        covering(policies.remove(index), scope, kind, subject) == covering(
            policies,
            scope,
            kind,
            subject,
        ).map_values(|position: int| shifted(position, index)),
    decreases policies.len(),
{
    let rest = policies.drop_last();
    let last = policies.len() - 1;
    let before = covering(rest, scope, kind, subject);
    let after = covering(policies, scope, kind, subject);
    let removed = policies.remove(index);
    if index == last {
        assert(removed =~= rest);
        lemma_covering_in_range(rest, scope, kind, subject);
        assert(before =~= after.map_values(|position: int| shifted(position, index)));
    } else {
        lemma_covering_without(rest, scope, kind, subject, index);
        assert(removed.drop_last() =~= rest.remove(index));
        assert(removed.last() == policies.last());
        assert(covering(removed, scope, kind, subject) =~= after.map_values(
            |position: int| shifted(position, index),
        ));
    }
}

proof fn lemma_refusal_of_same_policies(
    left: ReservationSnapshot,
    right: ReservationSnapshot,
    left_positions: Seq<int>,
    right_positions: Seq<int>,
    estimate: AiBudgetAmounts,
    second: i64,
    count: nat,
)
    requires
        left.counters == right.counters,
        count <= left_positions.len(),
        forall|k: int|
            0 <= k < count ==> #[trigger] left.policies@[left_positions[k]]
                == right.policies@[right_positions[k]],
    ensures
        first_counter_refusal(left, left_positions, estimate, second, count)
            == first_counter_refusal(right, right_positions, estimate, second, count),
    decreases count,
{
    if count > 0 {
        lemma_refusal_of_same_policies(
            left,
            right,
            left_positions,
            right_positions,
            estimate,
            second,
            (count - 1) as nat,
        );
        assert(left.policies@[left_positions[count - 1]]
            == right.policies@[right_positions[count - 1]]);
    }
}

/// The allowance of another principal never decides: without a policy of the
/// scope that names somebody else, the same request with the same counters is
/// admitted or refused just as with it.
pub proof fn policies_of_others_do_not_decide(
    snapshot: ReservationSnapshot,
    without: ReservationSnapshot,
    principal: ResolvedPrincipal,
    request: AiBudgetReservationRequest,
    now: UtcTime,
    limits: AiBudgetServiceLimits,
    index: int,
)
    requires
        0 <= index < snapshot.policies@.len() <= limits.policies(),
        policy_in_scope(snapshot.policies@[index], request.scope@),
        names_another(
            snapshot.policies@[index],
            principal_kind_text(principal.principal),
            principal_subject_text(principal.principal),
        ),
        without.run == snapshot.run,
        without.session == snapshot.session,
        without.existing == snapshot.existing,
        without.counters == snapshot.counters,
        without.policies@ == snapshot.policies@.remove(index),
    ensures
        reservation_refusal(without, principal, request, now, limits) == reservation_refusal(
            snapshot,
            principal,
            request,
            now,
            limits,
        ),
{
    let kind = principal_kind_text(principal.principal);
    let subject = principal_subject_text(principal.principal);
    let scope = request.scope@;
    let all = snapshot.policies@;
    let rest = without.policies@;
    let positions = covering(all, scope, kind, subject);
    let fewer = covering(rest, scope, kind, subject);
    lemma_covering_without(all, scope, kind, subject, index);
    lemma_covering_in_range(all, scope, kind, subject);
    assert(fewer.len() == positions.len());
    assert forall|k: int| 0 <= k < positions.len() implies #[trigger] all[positions[k]]
        == rest[fewer[k]] by {
        assert(fewer[k] == shifted(positions[k], index));
        assert(positions[k] != index);
    }
    lemma_refusal_of_same_policies(
        snapshot,
        without,
        positions,
        fewer,
        request.estimate,
        now.second() as i64,
        positions.len(),
    );
    if exists|i: int| 0 <= i < all.len() && !policy_in_scope(#[trigger] all[i], scope) {
        let i = choose|i: int| 0 <= i < all.len() && !policy_in_scope(#[trigger] all[i], scope);
        assert(rest[shifted(i, index)] == all[i]);
        assert(!policy_in_scope(rest[shifted(i, index)], scope));
    }
    if exists|i: int| 0 <= i < rest.len() && !policy_in_scope(#[trigger] rest[i], scope) {
        let i = choose|i: int| 0 <= i < rest.len() && !policy_in_scope(#[trigger] rest[i], scope);
        let at = if i < index {
            i
        } else {
            i + 1
        };
        assert(rest[i] == all[at]);
        assert(!policy_in_scope(all[at], scope));
    }
}

/// The ceiling of every unit, in the order of [`units`].
pub open spec fn ceilings(maximum: PolicyCeilings) -> Seq<Option<i64>> {
    seq![
        maximum.input_tokens,
        maximum.output_tokens,
        maximum.tool_units,
        maximum.image_units,
        maximum.cost_microunits,
        maximum.runs,
    ]
}

/// A policy admits amounts exactly where it has a ceiling at all and what is
/// reserved and committed together stays, in every unit, storable and within
/// the ceiling of that unit, if it has one. Capacity alone is denied as such.
pub proof fn capacity_is_checked_in_every_unit(
    maximum: PolicyCeilings,
    reserved: AiBudgetAmounts,
    committed: AiBudgetAmounts,
)
    ensures
        capacity_refusal(maximum, reserved, committed) is None <==> {
            &&& exists|k: int| 0 <= k < 6 && #[trigger] ceilings(maximum)[k] is Some
            &&& forall|k: int|
                0 <= k < 6 ==> #[trigger] units(reserved)[k] + units(committed)[k] <= i64::MAX
            &&& forall|k: int|
                0 <= k < 6 ==> (#[trigger] ceilings(maximum)[k] is None || units(reserved)[k]
                    + units(committed)[k] <= ceilings(maximum)[k]->0)
        },
        capacity_refusal(maximum, reserved, committed) == Some(ErrorModel::BudgetDenied) ==> {
            exists|k: int|
                0 <= k < 6 && #[trigger] ceilings(maximum)[k] is Some && 0
                    <= ceilings(maximum)[k]->0 < units(reserved)[k] + units(committed)[k]
        },
        (forall|k: int|
            0 <= k < 6 ==> #[trigger] ceilings(maximum)[k] is None || ceilings(maximum)[k]->0
                >= 0) && (exists|k: int|
            0 <= k < 6 && #[trigger] ceilings(maximum)[k] is Some && ceilings(maximum)[k]->0
                < units(reserved)[k] + units(committed)[k]) && (forall|k: int|
            0 <= k < 6 ==> #[trigger] units(reserved)[k] + units(committed)[k] <= i64::MAX)
            ==> capacity_refusal(maximum, reserved, committed) == Some(ErrorModel::BudgetDenied),
{
    let (l, r, c) = (units(reserved), units(committed), ceilings(maximum));
    addition_adds_every_unit(reserved, committed);
    assert(l[0] + r[0] == reserved.input_tokens + committed.input_tokens);
    assert(l[1] + r[1] == reserved.output_tokens + committed.output_tokens);
    assert(l[2] + r[2] == reserved.tool_units + committed.tool_units);
    assert(l[3] + r[3] == reserved.image_units + committed.image_units);
    assert(l[4] + r[4] == reserved.cost_microunits + committed.cost_microunits);
    assert(l[5] + r[5] == reserved.runs + committed.runs);
    assert(c[0] == maximum.input_tokens && c[1] == maximum.output_tokens);
    assert(c[2] == maximum.tool_units && c[3] == maximum.image_units);
    assert(c[4] == maximum.cost_microunits && c[5] == maximum.runs);
}

/// What a counter holds before a write: its columns, or nothing.
pub open spec fn held_columns(
    counters: Seq<AiBudgetCounterRecord>,
    committed: bool,
) -> Seq<int> {
    if counters.len() == 0 {
        seq![0int, 0, 0, 0, 0, 0]
    } else if committed {
        columns(counters[0].committed)
    } else {
        columns(counters[0].reserved)
    }
}

/// A counter write reserves exactly the estimate more, unit by unit, leaves
/// what was committed, and is of this policy in its version and of the period
/// that the second lies in; an existing counter is replaced under its version.
pub proof fn counter_write_adds_the_estimate(
    policy: AiBudgetPolicyRecord,
    counters: Seq<AiBudgetCounterRecord>,
    estimate: AiBudgetAmounts,
    second: i64,
    write: CounterWrite,
)
    requires
        counter_refusal(policy, counters, estimate, second) is None,
        counter_planned(policy, counters, estimate, second, write),
    ensures
        ({
            let (reserved, committed) = written_amounts(write);
            &&& forall|k: int|
                0 <= k < 6 ==> #[trigger] columns(reserved)[k] == held_columns(
                    counters,
                    false,
                )[k] + units(estimate)[k]
            &&& columns(committed) == held_columns(counters, true)
        }),
        period_model(policy.interval_kind@, second as int) is Ok,
        match write {
            CounterWrite::Insert { budget_policy_id, policy_version, period, .. } => {
                &&& counters.len() == 0
                &&& budget_policy_id == policy.id
                &&& policy_version == policy.row_version
                &&& Ok::<PeriodModel, ErrorModel>(period@) == period_model(
                    policy.interval_kind@,
                    second as int,
                )
            },
            CounterWrite::Update {
                counter_id,
                expected_row_version,
                policy_version,
                period_started_at,
                period_ends_at,
                ..
            } => {
                let period = period_model(policy.interval_kind@, second as int)->Ok_0;
                &&& counters.len() == 1
                &&& counter_id == counters[0].id
                &&& expected_row_version == counters[0].row_version
                &&& policy_version == policy.row_version
                &&& period_started_at == period.started_at
                &&& period_ends_at == period.ends_at
            },
        },
{
    let (reserved, committed) = written_amounts(write);
    let held = held_amounts(reserved_columns(counters))->Ok_0;
    addition_adds_every_unit(held, estimate);
    columns_hold_their_units(sum(held, estimate), reserved);
    if counters.len() > 0 {
        columns_hold_their_units(estimate, counters[0].reserved);
        columns_hold_their_units(estimate, counters[0].committed);
    }
    let kept = held_amounts(committed_columns(counters))->Ok_0;
    columns_hold_their_units(kept, committed);
    assert(units(held) =~= held_columns(counters, false));
    assert(units(kept) =~= held_columns(counters, true));
    assert(columns(committed) =~= held_columns(counters, true));
}

/// A request is taken up exactly where it names its session, run, and attempt,
/// reserves one run within the deployment maximum of every unit, expires after
/// now and within the longest lifetime, and stays in the principal's tenant.
pub proof fn requests_are_taken_up_where_bounded(
    principal: ResolvedPrincipal,
    request: AiBudgetReservationRequest,
    now: UtcTime,
    limits: AiBudgetServiceLimits,
)
    requires
        request.wf(),
        now.wf(),
        limits.wf(),
    ensures
        request_refusal(principal, request, now, limits) is None <==> {
            &&& !blank(request.scope.kind@) && byte_len(request.scope.kind@) <= 128
            &&& !blank(request.scope.id@) && byte_len(request.scope.id@) <= 512
            &&& request.scope.tenant_id is None || !blank(request.scope.tenant_id->0@)
                && byte_len(request.scope.tenant_id->0@) <= 512
            &&& request.session_id != 0 && request.run_id != 0 && request.attempt_id != 0
            &&& request.lease_generation > 0
            &&& !blank(request.model@) && byte_len(request.model@) <= 200
            &&& !blank(request.pricing_policy_version@) && byte_len(
                request.pricing_policy_version@,
            ) <= 200
            &&& !blank(request.idempotency_key@) && byte_len(request.idempotency_key@) <= 256
            &&& request.estimate.runs == 1
            &&& forall|k: int|
                0 <= k < 6 ==> #[trigger] units(request.estimate)[k] <= units(
                    limits.per_call(),
                )[k]
            &&& (UtcTime { nanos: (now.nanos + limits.lifetime().nanos) as i128 }).wf()
            &&& now.nanos < request.expires_at.second() * 1_000_000_000 <= now.nanos
                + limits.lifetime().nanos
            &&& principal.reference.tenant_id is None || request.scope.tenant_id is Some
                && principal.reference.tenant_id->0@ == request.scope.tenant_id->0@
        },
{
    bounds_hold_in_every_unit(limits.per_call(), request.estimate);
}

/// A run vouches for a request exactly while it is running under the very
/// attempt and generation that the request names, for the same principal, with
/// a named owner whose lease outlasts now and the reservation.
pub proof fn runs_vouch_for_their_own_attempt(
    run: AiRunRecord,
    reference: PrincipalReference,
    request: AiBudgetReservationRequest,
    now: UtcTime,
)
    ensures
        run_fenced(run, reference, request, now) <==> {
            &&& run.id == request.run_id
            &&& run.session_id == request.session_id
            &&& run.state@ == "running"@
            &&& run.attempt_id is Some && run.attempt_id->0 == request.attempt_id
            &&& run.lease_generation == request.lease_generation
            &&& run.principal_reference is Some && run.principal_reference->0@ == reference@
            &&& run.lease_owner is Some && run.lease_owner->0@.len() > 0
            &&& run.lease_expires_at is Some && now.second() < run.lease_expires_at->0
                && request.expires_at.second() <= run.lease_expires_at->0
        },
{
}

/// A reservation row holds the request that it was made for: scope, principal,
/// fence, provider, price, amounts, key, and expiry, each in its own column.
pub proof fn reservation_row_holds_its_request(
    row: NewReservation,
    principal: ResolvedPrincipal,
    request: AiBudgetReservationRequest,
)
    requires
        reservation_recorded(row, principal, request),
        storable(request.estimate),
    ensures
        row.scope_kind@ == request.scope@.kind,
        row.scope_id@ == request.scope@.id,
        text_option(row.tenant_id) == request.scope@.tenant_id,
        row.principal_kind@ == principal_kind_text(principal.principal),
        row.principal_subject@ == principal_subject_text(principal.principal),
        row.session_id == request.session_id,
        row.run_id == request.run_id,
        row.attempt_id == request.attempt_id,
        row.lease_generation == request.lease_generation,
        row.provider_kind@ == provider_kind_text(request.provider_kind),
        row.provider_model@ == request.model@,
        row.pricing_policy_version@ == request.pricing_policy_version@,
        columns(row.reserved) == units(request.estimate),
        row.idempotency_key@ == request.idempotency_key@,
        row.state@ == "reserved"@,
        row.expires_at == request.expires_at.second(),
{
    columns_hold_their_units(request.estimate, row.reserved);
}

/// A key that was used before is answered only with the same request: where
/// anything that the row holds differs, or the reservation is no longer
/// reserved, the request is refused and nothing new is reserved.
pub proof fn used_keys_answer_the_same_request_alone(
    snapshot: ReservationSnapshot,
    principal: ResolvedPrincipal,
    request: AiBudgetReservationRequest,
    now: UtcTime,
    limits: AiBudgetServiceLimits,
)
    requires
        snapshot.existing@.len() > 0,
        reservation_refusal(snapshot, principal, request, now, limits) is None,
    ensures
        snapshot.existing@.len() == 1,
        ({
            let row = snapshot.existing@[0];
            &&& row.scope_kind@ == request.scope.kind@
            &&& row.scope_id@ == request.scope.id@
            &&& text_option(row.tenant_id) == text_option(request.scope.tenant_id)
            &&& row.principal_kind@ == principal_kind_text(principal.principal)
            &&& row.principal_subject@ == principal_subject_text(principal.principal)
            &&& row.session_id == request.session_id
            &&& row.run_id == request.run_id
            &&& row.attempt_id == request.attempt_id
            &&& row.lease_generation == request.lease_generation
            &&& row.provider_kind@ == provider_kind_text(request.provider_kind)
            &&& row.provider_model@ == request.model@
            &&& row.pricing_policy_version@ == request.pricing_policy_version@
            &&& columns(row.reserved) == units(request.estimate)
            &&& row.expires_at == request.expires_at.second()
            &&& row.state@ == "reserved"@
        }),
{
    columns_hold_their_units(request.estimate, snapshot.existing@[0].reserved);
}

/// Nothing is reserved for a run that does not vouch, in a session that is not
/// the principal's, where no policy governs the principal, where more policies
/// are loaded than the deployment allows, or where one of them is of another
/// scope.
pub proof fn reservations_need_run_session_and_policy(
    snapshot: ReservationSnapshot,
    principal: ResolvedPrincipal,
    request: AiBudgetReservationRequest,
    now: UtcTime,
    limits: AiBudgetServiceLimits,
)
    requires
        reservation_refusal(snapshot, principal, request, now, limits) is None,
    ensures
        snapshot.run is Some && run_fenced(snapshot.run->0, principal.reference, request, now),
        snapshot.session is Some && session_in_scope(
            snapshot.session->0,
            principal.reference@,
            request.scope@,
        ),
        snapshot.existing@.len() == 0 ==> {
            let kind = principal_kind_text(principal.principal);
            let subject = principal_subject_text(principal.principal);
            &&& 0 < snapshot.policies@.len() <= limits.policies()
            &&& forall|i: int|
                0 <= i < snapshot.policies@.len() ==> policy_in_scope(
                    #[trigger] snapshot.policies@[i],
                    request.scope@,
                )
            &&& exists|i: int|
                0 <= i < snapshot.policies@.len() && !names_another(
                    #[trigger] snapshot.policies@[i],
                    kind,
                    subject,
                )
        },
{
    let kind = principal_kind_text(principal.principal);
    let subject = principal_subject_text(principal.principal);
    if snapshot.existing@.len() == 0 {
        lemma_covering_in_range(snapshot.policies@, request.scope@, kind, subject);
        let positions = covering(snapshot.policies@, request.scope@, kind, subject);
        assert(positions[0] < snapshot.policies@.len());
        assert(!names_another(snapshot.policies@[positions[0]], kind, subject));
    }
}

proof fn lemma_every_policy_admits(
    snapshot: ReservationSnapshot,
    positions: Seq<int>,
    estimate: AiBudgetAmounts,
    second: i64,
    count: nat,
    k: int,
)
    requires
        0 <= k < count,
        first_counter_refusal(snapshot, positions, estimate, second, count) is None,
    ensures
        counter_refusal(
            snapshot.policies@[positions[k]],
            snapshot.counters@[k]@,
            estimate,
            second,
        ) is None,
    decreases count,
{
    if k < count - 1 {
        lemma_every_policy_admits(snapshot, positions, estimate, second, (count - 1) as nat, k);
    }
}

/// One policy that refuses is enough: a reservation is admitted only where
/// every policy of the principal has room for it.
pub proof fn every_governing_policy_has_room(
    snapshot: ReservationSnapshot,
    principal: ResolvedPrincipal,
    request: AiBudgetReservationRequest,
    now: UtcTime,
    limits: AiBudgetServiceLimits,
    k: int,
)
    requires
        snapshot.existing@.len() == 0,
        reservation_refusal(snapshot, principal, request, now, limits) is None,
        0 <= k < covering(
            snapshot.policies@,
            request.scope@,
            principal_kind_text(principal.principal),
            principal_subject_text(principal.principal),
        ).len(),
    ensures
        ({
            let positions = covering(
                snapshot.policies@,
                request.scope@,
                principal_kind_text(principal.principal),
                principal_subject_text(principal.principal),
            );
            let policy = snapshot.policies@[positions[k]];
            let counters = snapshot.counters@[k]@;
            &&& counters.len() <= 1
            &&& forall|unit: int|
                0 <= unit < 6 ==> (#[trigger] ceilings(policy.maximum)[unit] is None
                    || held_columns(counters, false)[unit] + units(request.estimate)[unit]
                    + held_columns(counters, true)[unit] <= ceilings(policy.maximum)[unit]->0)
        }),
{
    let positions = covering(
        snapshot.policies@,
        request.scope@,
        principal_kind_text(principal.principal),
        principal_subject_text(principal.principal),
    );
    let policy = snapshot.policies@[positions[k]];
    let counters = snapshot.counters@[k]@;
    lemma_every_policy_admits(
        snapshot,
        positions,
        request.estimate,
        now.second() as i64,
        positions.len(),
        k,
    );
    let held = held_amounts(reserved_columns(counters))->Ok_0;
    let kept = held_amounts(committed_columns(counters))->Ok_0;
    addition_adds_every_unit(held, request.estimate);
    capacity_is_checked_in_every_unit(policy.maximum, sum(held, request.estimate), kept);
    if counters.len() > 0 {
        columns_hold_their_units(request.estimate, counters[0].reserved);
        columns_hold_their_units(request.estimate, counters[0].committed);
    }
    assert(units(held) =~= held_columns(counters, false));
    assert(units(kept) =~= held_columns(counters, true));
    assert forall|unit: int| 0 <= unit < 6 implies (#[trigger] ceilings(policy.maximum)[unit]
        is None || held_columns(counters, false)[unit] + units(request.estimate)[unit]
        + held_columns(counters, true)[unit] <= ceilings(policy.maximum)[unit]->0) by {
        let next = sum(held, request.estimate);
        assert(units(next)[unit] == units(held)[unit] + units(request.estimate)[unit]);
        assert(units(next)[unit] + units(kept)[unit] <= i64::MAX);
    }
}

/// Policies are refused as a matter of configuration where there are too many
/// or one is not of the scope; the budget is denied where none is left that
/// covers the principal. A ceiling denies what is above it, and a negative one
/// is a matter of configuration.
pub proof fn refused_policies_say_why(
    policies: Seq<AiBudgetPolicyRecord>,
    scope: ScopeModel,
    principal_kind: Seq<char>,
    principal_subject: Seq<char>,
    maximum: nat,
    ceiling: Option<i64>,
    value: u64,
)
    ensures
        ({
            let refusal = policies_refusal(
                policies,
                scope,
                principal_kind,
                principal_subject,
                maximum,
            );
            let foreign = exists|i: int|
                0 <= i < policies.len() && !policy_in_scope(#[trigger] policies[i], scope);
            &&& policies.len() > maximum ==> refusal == Some(
                ErrorModel::InvalidConfiguration("too many AI budget policies for one scope"@),
            )
            &&& policies.len() <= maximum && foreign ==> refusal == Some(
                ErrorModel::InvalidConfiguration("invalid AI budget policy scope binding"@),
            )
            &&& refusal == Some(ErrorModel::BudgetDenied) <==> policies.len() <= maximum && !foreign
                && covering(policies, scope, principal_kind, principal_subject).len() == 0
        }),
        ceiling_refusal(ceiling, value) == Some(ErrorModel::BudgetDenied) <==> ceiling is Some && 0
            <= ceiling->0 < value,
        ceiling_refusal(ceiling, value) == Some(
            ErrorModel::InvalidConfiguration("negative AI budget policy limit"@),
        ) <==> ceiling is Some && ceiling->0 < 0,
        ceiling_refusal(ceiling, value) is None <==> ceiling is None || value <= ceiling->0,
{
}

/// A reservation without its run is a conflict, as is one of another attempt; a
/// run without its principal is a fault of the store; another's session is
/// forbidden; and a used key answers or is a conflict.
pub proof fn refused_reservations_say_why(
    snapshot: ReservationSnapshot,
    principal: ResolvedPrincipal,
    request: AiBudgetReservationRequest,
    now: UtcTime,
    limits: AiBudgetServiceLimits,
)
    ensures
        ({
            let refusal = reservation_refusal(snapshot, principal, request, now, limits);
            let run = snapshot.run->0;
            let fenced = snapshot.run is Some && run.principal_reference is Some && run_fenced(
                run,
                principal.reference,
                request,
                now,
            );
            let owned = snapshot.session is Some && session_in_scope(
                snapshot.session->0,
                principal.reference@,
                request.scope@,
            );
            &&& snapshot.run is None ==> refusal == Some(ErrorModel::Conflict)
            &&& snapshot.run is Some && run.principal_reference is None ==> refusal == Some(
                ErrorModel::PersistenceFailed,
            )
            &&& snapshot.run is Some && run.principal_reference is Some && !fenced ==> refusal
                == Some(ErrorModel::Conflict)
            &&& fenced && snapshot.session is None ==> refusal == Some(ErrorModel::Conflict)
            &&& fenced && snapshot.session is Some && !owned ==> refusal == Some(
                ErrorModel::Forbidden,
            )
            &&& fenced && owned && snapshot.existing@.len() > 1 ==> refusal == Some(
                ErrorModel::PersistenceFailed,
            )
            &&& fenced && owned && snapshot.existing@.len() == 1 ==> {
                let row = snapshot.existing@[0];
                let same = reservation_binds(
                    row,
                    principal_kind_text(principal.principal),
                    principal_subject_text(principal.principal),
                    request,
                ) && row.state@ == "reserved"@;
                &&& !same ==> refusal == Some(ErrorModel::Conflict)
                &&& same && !readable_reservation(row) ==> refusal == Some(
                    ErrorModel::PersistenceFailed,
                )
                &&& same && readable_reservation(row) ==> refusal is None
            }
        }),
{
}

/// A policy without a counter holds nothing yet; otherwise its counter's
/// columns say what it holds and what it committed.
pub proof fn counters_say_what_they_hold(counters: Seq<AiBudgetCounterRecord>)
    ensures
        counters.len() == 0 ==> reserved_columns(counters) is None && committed_columns(counters)
            is None,
        counters.len() > 0 ==> reserved_columns(counters) == Some(counters[0].reserved)
            && committed_columns(counters) == Some(counters[0].committed),
{
}

/// A request is refused for what is wrong with it: another tenant is forbidden,
/// a lifetime that reaches past every instant is a matter of configuration, and
/// all else is invalid input, with the fault by name.
pub proof fn refused_requests_say_why(
    principal: ResolvedPrincipal,
    request: AiBudgetReservationRequest,
    now: UtcTime,
    limits: AiBudgetServiceLimits,
)
    ensures
        ({
            let refusal = request_refusal(principal, request, now, limits);
            let latest = UtcTime { nanos: (now.nanos + limits.lifetime().nanos) as i128 };
            let scoped = valid_scope(request.scope@);
            let formed = scoped && well_formed_request(request, limits);
            let timely = now.nanos < UtcTime::at(request.expires_at.second()).nanos
                <= latest.nanos;
            &&& refusal == Some(ErrorModel::InvalidInput("invalid AI scope"@)) <== !scoped
            &&& scoped && !formed ==> refusal == Some(
                ErrorModel::InvalidInput("invalid budget reservation request"@),
            )
            &&& formed && !latest.wf() ==> refusal == Some(
                ErrorModel::InvalidConfiguration("budget time overflow"@),
            )
            &&& formed && latest.wf() && !timely ==> refusal == Some(
                ErrorModel::InvalidInput("invalid budget reservation expiry"@),
            )
            &&& formed && latest.wf() && timely && refusal is Some ==> refusal == Some(
                ErrorModel::Forbidden,
            )
            &&& refusal == Some(ErrorModel::Forbidden) ==> formed && latest.wf() && timely
        }),
{
}

/// A counter is refused for what is wrong: more than one, or one that cannot be
/// read, is a fault of the store; room that is exceeded denies the budget; a
/// policy without any ceiling is a matter of configuration.
pub proof fn refused_counters_say_why(
    policy: AiBudgetPolicyRecord,
    counters: Seq<AiBudgetCounterRecord>,
    estimate: AiBudgetAmounts,
    second: i64,
    reserved: AiBudgetAmounts,
    committed: AiBudgetAmounts,
)
    ensures
        ({
            let refusal = counter_refusal(policy, counters, estimate, second);
            let timed = period_model(policy.interval_kind@, second as int) is Ok;
            &&& timed && counters.len() > 1 ==> refusal == Some(ErrorModel::PersistenceFailed)
            &&& timed && counters.len() == 1 && !(non_negative(counters[0].reserved)
                && non_negative(counters[0].committed)) ==> refusal == Some(
                ErrorModel::PersistenceFailed,
            )
        }),
        ({
            let maximum = policy.maximum;
            added(reserved, committed) is Ok && maximum.input_tokens is None
                && maximum.output_tokens is None && maximum.tool_units is None
                && maximum.image_units is None && maximum.cost_microunits is None
                && maximum.runs is None ==> capacity_refusal(maximum, reserved, committed) == Some(
                ErrorModel::InvalidConfiguration("AI budget policy has no ceiling"@),
            )
        }),
{
}

/// Deployment limits let a call reserve a run, last some time, and are bounded:
/// at most 256 policies and 16 repetitions.
pub proof fn limits_are_bounded(limits: AiBudgetServiceLimits)
    requires
        limits.wf(),
    ensures
        limits.per_call().runs > 0,
        limits.lifetime().nanos > 0,
        limits.principal_age().nanos > 0,
        0 < limits.policies() < 257,
        limits.retries() < 17,
{
}

} // verus!
