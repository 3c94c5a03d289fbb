//! Current authority over protected content.
//!
//! Protected content is addressed by a [`ContentProtectionContext`], and a
//! context comes only from a [`ContentAuthority`]. That is earned in steps: the
//! session is bound first, then the principal is proven fresh, then access is
//! granted, then a ready protection policy of exactly this scope is found.
//! Whoever is refused on the way holds nothing to open or write content with.

use crate::access::{
    AiContentProtectionPolicy, AiRunLease, require_granted, require_ready_policy, same_policy,
    session_bound, validate_session_binding,
};
use crate::clock::{Duration, UtcTime, fresh_within};
use crate::digest::{Uuid, uuid_text, uuid_to_string};
use crate::error::{AiError, ErrorModel, accepted_or, outcome, refusal};
use crate::principal::{
    AiScope, PrincipalReference, ResolvedPrincipal, same_reference, same_scope, session_scope,
    session_scope_model, validate_fresh_principal,
};
use crate::records::AiSessionRecord;
use crate::text::{same_text, text_option};
use vstd::prelude::*;

verus! {

/// Whether the principal is fresh: resolved no longer ago than the maximum
/// accepted age, and not expired.
pub open spec fn fresh(principal: ResolvedPrincipal, now: UtcTime, maximum_age: Duration) -> bool {
    fresh_within(principal.resolved_at, principal.reference.expires_at, now, maximum_age)
}

/// Who acts, and what their standing was checked on.
pub enum Actor {
    /// A worker that holds a lease of the session's run.
    Worker { lease: AiRunLease, principal: ResolvedPrincipal, now: UtcTime, maximum_age: Duration },
    /// The session's owner itself.
    Owner { principal_kind: Seq<char>, principal_subject: Seq<char> },
}

/// Everything that an authority was earned on.
pub struct AuthorityEvidence {
    pub actor: Actor,
    pub scope_allowed: bool,
    pub session_allowed: bool,
}

/// How far the check has come.
#[derive(Clone, Copy, Debug, PartialEq, Eq, Structural)]
pub enum AuthorityStage {
    /// The session is bound; the principal is awaited.
    Bound,
    /// The actor is known to be current; access is awaited.
    Current,
    /// Access is granted; the protection policy is awaited.
    Granted,
}

/// Whether the session belongs to the actor and lies in the scope.
pub open spec fn actor_bound(actor: Actor, session: AiSessionRecord, scope: AiScope) -> bool {
    match actor {
        Actor::Worker { lease, .. } => session_bound(session, lease, scope@),
        Actor::Owner { principal_kind, principal_subject } => {
            &&& session.owner_principal_kind@ == principal_kind
            &&& session.owner_subject@ == principal_subject
            &&& session_scope_model(session) == scope@
        },
    }
}

/// Whether the actor's standing is current.
pub open spec fn actor_current(actor: Actor) -> bool {
    match actor {
        Actor::Worker { principal, now, maximum_age, .. } => fresh(principal, now, maximum_age),
        Actor::Owner { .. } => true,
    }
}

/// The resolved principal of a worker.
pub open spec fn actor_reference(actor: Actor) -> Option<PrincipalReference> {
    match actor {
        Actor::Worker { principal, .. } => Some(principal.reference),
        Actor::Owner { .. } => None,
    }
}

/// A check of authority under way.
pub struct AuthorityCheck {
    session: AiSessionRecord,
    scope: AiScope,
    reference: Option<PrincipalReference>,
    stage: AuthorityStage,
    evidence: Ghost<AuthorityEvidence>,
}

/// Values of [`AuthorityCheck`].
pub struct CheckModel {
    pub session: AiSessionRecord,
    pub scope: AiScope,
    pub reference: Option<PrincipalReference>,
    pub stage: AuthorityStage,
    pub evidence: AuthorityEvidence,
}

impl View for AuthorityCheck {
    type V = CheckModel;

    closed spec fn view(&self) -> CheckModel {
        CheckModel {
            session: self.session,
            scope: self.scope,
            reference: self.reference,
            stage: self.stage,
            evidence: self.evidence@,
        }
    }
}

impl AuthorityCheck {
    /// Checks whose passed steps are backed by their evidence.
    pub open spec fn wf(self) -> bool {
        &&& actor_bound(self@.evidence.actor, self@.session, self@.scope)
        &&& !(self@.stage is Bound) ==> actor_current(self@.evidence.actor) && self@.reference
            == actor_reference(self@.evidence.actor)
        &&& self@.stage is Granted ==> self@.evidence.scope_allowed
            && self@.evidence.session_allowed
    }

    /// Begins the check of a worker: the session must exist and be bound to
    /// the worker's lease and to exactly this scope.
    pub fn begin(
        session: &Option<AiSessionRecord>,
        lease: &AiRunLease,
        scope: &AiScope,
    ) -> (result: Result<AuthorityCheck, AiError>)
        ensures
            refusal(result) == if session is None {
                Some(ErrorModel::NotFound)
            } else if !session_bound(session->0, *lease, scope@) {
                Some(ErrorModel::Forbidden)
            } else {
                None
            },
            result matches Ok(check) ==> {
                &&& check.wf()
                &&& check@.scope == *scope
                &&& check@.stage is Bound
                &&& check@.session == session->0
                &&& check@.evidence.actor matches Actor::Worker { lease: held, .. } && held
                    == *lease
            },
    {
        let row = match session {
            Some(row) => row,
            None => return Err(AiError::NotFound),
        };
        match validate_session_binding(row, lease, scope) {
            Ok(()) => {},
            Err(error) => return Err(error),
        }
        let ghost evidence = AuthorityEvidence {
            actor: Actor::Worker {
                lease: *lease,
                principal: arbitrary(),
                now: arbitrary(),
                maximum_age: arbitrary(),
            },
            scope_allowed: false,
            session_allowed: false,
        };
        Ok(
            AuthorityCheck {
                session: row.clone(),
                scope: scope.clone(),
                reference: None,
                stage: AuthorityStage::Bound,
                evidence: Ghost(evidence),
            },
        )
    }

    /// Begins the check of an owner who reads: the session must exist and be
    /// owned by them. Its own scope is the one that counts.
    pub fn begin_owner(
        session: &Option<AiSessionRecord>,
        principal_kind: &str,
        principal_subject: &str,
    ) -> (result: Result<AuthorityCheck, AiError>)
        ensures
            refusal(result) == if session is Some && session->0.owner_principal_kind@
                == principal_kind@ && session->0.owner_subject@ == principal_subject@ {
                None
            } else {
                Some(ErrorModel::Forbidden)
            },
            result matches Ok(check) ==> {
                &&& check.wf()
                &&& check@.scope@ == session_scope_model(session->0)
                &&& check@.stage is Current
                &&& check@.session == session->0
                &&& check@.reference is None
                &&& check@.evidence.actor == (Actor::Owner {
                    principal_kind: principal_kind@,
                    principal_subject: principal_subject@,
                })
            },
    {
        let row = match session {
            Some(row) => row,
            None => return Err(AiError::Forbidden),
        };
        if !same_text(row.owner_principal_kind.as_str(), principal_kind) || !same_text(
            row.owner_subject.as_str(),
            principal_subject,
        ) {
            return Err(AiError::Forbidden);
        }
        let ghost evidence = AuthorityEvidence {
            actor: Actor::Owner {
                principal_kind: principal_kind@,
                principal_subject: principal_subject@,
            },
            scope_allowed: false,
            session_allowed: false,
        };
        Ok(
            AuthorityCheck {
                session: row.clone(),
                scope: session_scope(row),
                reference: None,
                stage: AuthorityStage::Current,
                evidence: Ghost(evidence),
            },
        )
    }

    /// The scope that the check is about.
    pub fn scope(&self) -> (scope: &AiScope)
        ensures
            *scope == self@.scope,
    {
        &self.scope
    }

    /// Accepts the worker's principal where it is fresh. An age equal to the
    /// maximum is accepted.
    pub fn admit_principal(
        self,
        principal: &ResolvedPrincipal,
        now: UtcTime,
        maximum_age: Duration,
    ) -> (result: Result<AuthorityCheck, AiError>)
        requires
            self.wf(),
            self@.stage is Bound,
            self@.evidence.actor is Worker,
            principal.wf(),
            now.wf(),
        ensures
            refusal(result) == if fresh(*principal, now, maximum_age) {
                None
            } else {
                Some(ErrorModel::ReauthorizationFailed)
            },
            result matches Ok(check) ==> {
                &&& check.wf()
                &&& check@.scope == self@.scope
                &&& check@.stage is Current
                &&& check@.session == self@.session
                &&& check@.evidence.actor == (Actor::Worker {
                    lease: self@.evidence.actor->lease,
                    principal: *principal,
                    now,
                    maximum_age,
                })
            },
    {
        match validate_fresh_principal(principal, now, maximum_age) {
            Ok(()) => {},
            Err(error) => return Err(error),
        }
        let ghost evidence = AuthorityEvidence {
            actor: Actor::Worker {
                lease: self.evidence@.actor->lease,
                principal: *principal,
                now,
                maximum_age,
            },
            ..self.evidence@
        };
        let AuthorityCheck { session, scope, .. } = self;
        Ok(
            AuthorityCheck {
                session,
                scope,
                reference: Some(principal.reference.clone()),
                stage: AuthorityStage::Current,
                evidence: Ghost(evidence),
            },
        )
    }

    /// Accepts access to both the scope and the session.
    pub fn admit_access(self, scope_allowed: bool, session_allowed: bool) -> (result: Result<
        AuthorityCheck,
        AiError,
    >)
        requires
            self.wf(),
            self@.stage is Current,
        ensures
            refusal(result) == if scope_allowed && session_allowed {
                None
            } else {
                Some(ErrorModel::Forbidden)
            },
            result matches Ok(check) ==> {
                &&& check.wf()
                &&& check@.scope == self@.scope
                &&& check@.reference == self@.reference
                &&& check@.stage is Granted
                &&& check@.session == self@.session
                &&& check@.evidence.actor == self@.evidence.actor
            },
    {
        match require_granted(scope_allowed, session_allowed) {
            Ok(()) => {},
            Err(error) => return Err(error),
        }
        let ghost evidence = AuthorityEvidence {
            scope_allowed,
            session_allowed,
            ..self.evidence@
        };
        let AuthorityCheck { session, scope, reference, .. } = self;
        Ok(
            AuthorityCheck {
                session,
                scope,
                reference,
                stage: AuthorityStage::Granted,
                evidence: Ghost(evidence),
            },
        )
    }

    /// Accepts a ready protection policy of exactly this scope, and with it
    /// hands out the authority.
    pub fn admit_policy(self, policy: AiContentProtectionPolicy) -> (result: Result<
        ContentAuthority,
        AiError,
    >)
        requires
            self.wf(),
            self@.stage is Granted,
        ensures
            refusal(result) == if policy.ready && policy.scope@ == self@.scope@ {
                None
            } else {
                Some(ErrorModel::RuntimeNotReady)
            },
            result matches Ok(authority) ==> {
                &&& authority.wf()
                &&& authority@.session == self@.session
                &&& authority@.scope == self@.scope
                &&& authority@.reference == self@.reference
                &&& authority@.policy == policy
                &&& authority@.evidence == self@.evidence
            },
    {
        match require_ready_policy(&policy, &self.scope) {
            Ok(()) => {},
            Err(error) => return Err(error),
        }
        let AuthorityCheck { session, scope, reference, evidence, .. } = self;
        Ok(ContentAuthority { session, scope, reference, policy, evidence })
    }
}

/// Authority over the protected content of one scope.
pub struct ContentAuthority {
    session: AiSessionRecord,
    scope: AiScope,
    reference: Option<PrincipalReference>,
    policy: AiContentProtectionPolicy,
    evidence: Ghost<AuthorityEvidence>,
}

/// Values of [`ContentAuthority`].
pub struct AuthorityModel {
    pub session: AiSessionRecord,
    pub scope: AiScope,
    /// The resolved principal, where a worker acts.
    pub reference: Option<PrincipalReference>,
    pub policy: AiContentProtectionPolicy,
    pub evidence: AuthorityEvidence,
}

impl View for ContentAuthority {
    type V = AuthorityModel;

    closed spec fn view(&self) -> AuthorityModel {
        AuthorityModel {
            session: self.session,
            scope: self.scope,
            reference: self.reference,
            policy: self.policy,
            evidence: self.evidence@,
        }
    }
}

/// Where one protected value belongs. Only an authority makes one.
#[derive(Debug, PartialEq, Eq)]
pub struct ContentProtectionContext {
    entity: String,
    row_id: String,
    field: String,
    scope: AiScope,
}

/// Values of [`ContentProtectionContext`].
pub struct ContextModel {
    pub entity: Seq<char>,
    pub row_id: Seq<char>,
    pub field: Seq<char>,
    pub scope: AiScope,
}

impl View for ContentProtectionContext {
    type V = ContextModel;

    closed spec fn view(&self) -> ContextModel {
        ContextModel {
            entity: self.entity@,
            row_id: self.row_id@,
            field: self.field@,
            scope: self.scope,
        }
    }
}

impl ContentProtectionContext {
    /// The table that the value is stored in.
    pub fn entity(&self) -> (entity: &str)
        ensures
            entity@ == self@.entity,
    {
        self.entity.as_str()
    }

    /// The row that the value is stored in.
    pub fn row_id(&self) -> (row_id: &str)
        ensures
            row_id@ == self@.row_id,
    {
        self.row_id.as_str()
    }

    /// The column that the value is stored in.
    pub fn field(&self) -> (field: &str)
        ensures
            field@ == self@.field,
    {
        self.field.as_str()
    }

    /// The scope that the value belongs to.
    pub fn scope(&self) -> (scope: &AiScope)
        ensures
            *scope == self@.scope,
    {
        &self.scope
    }
}

impl ContentAuthority {
    /// Authorities that were earned completely.
    pub open spec fn wf(self) -> bool {
        &&& actor_bound(self@.evidence.actor, self@.session, self@.scope)
        &&& actor_current(self@.evidence.actor)
        &&& self@.reference == actor_reference(self@.evidence.actor)
        &&& self@.evidence.scope_allowed
        &&& self@.evidence.session_allowed
        &&& self@.policy.ready
        &&& self@.policy.scope@ == self@.scope@
    }

    /// The session that the authority was checked for.
    pub fn session(&self) -> (session: &AiSessionRecord)
        ensures
            *session == self@.session,
    {
        &self.session
    }

    /// The scope that the authority is over.
    pub fn scope(&self) -> (scope: &AiScope)
        ensures
            *scope == self@.scope,
    {
        &self.scope
    }

    /// The protection policy in force.
    pub fn policy(&self) -> (policy: &AiContentProtectionPolicy)
        ensures
            *policy == self@.policy,
    {
        &self.policy
    }

    /// Addresses one protected value of the scope.
    pub fn place(&self, entity: &str, row_id: Uuid, field: &str) -> (context:
        ContentProtectionContext)
        requires
            self.wf(),
        ensures
            context@ == (ContextModel {
                entity: entity@,
                row_id: uuid_text(row_id),
                field: field@,
                scope: self@.scope,
            }),
    {
        ContentProtectionContext {
            entity: entity.to_owned(),
            row_id: uuid_to_string(row_id),
            field: field.to_owned(),
            scope: self.scope.clone(),
        }
    }
}

/// Whether nothing that authorized the work has drifted: both authorities are
/// over the lease's session, in the same scope and under the same policy, and
/// both resolutions are of the lease's principal.
pub open spec fn authority_unchanged(
    started: ContentAuthority,
    current: ContentAuthority,
    lease: AiRunLease,
) -> bool {
    &&& started@.session.id == lease.session_id
    &&& current@.session.id == lease.session_id
    &&& current@.scope@ == started@.scope@
    &&& current@.policy@ == started@.policy@
    &&& started@.reference matches Some(reference) && reference@ == lease.principal_reference@
    &&& current@.reference matches Some(reference) && reference@ == lease.principal_reference@
}

fn is_of_lease(authority: &ContentAuthority, lease: &AiRunLease) -> (result: bool)
    ensures
        result == (authority@.reference matches Some(reference) && reference@
            == lease.principal_reference@),
{
    match &authority.reference {
        Some(reference) => same_reference(reference, &lease.principal_reference),
        None => false,
    }
}

/// Accepts work whose authority has not drifted.
pub fn require_unchanged_authority(
    started: &ContentAuthority,
    current: &ContentAuthority,
    lease: &AiRunLease,
) -> (result: Result<(), AiError>)
    ensures
        outcome(result) == accepted_or(
            authority_unchanged(*started, *current, *lease),
            ErrorModel::ReauthorizationFailed,
        ),
{
    if started.session.id == lease.session_id && current.session.id == lease.session_id
        && same_scope(&current.scope, &started.scope) && same_policy(
        &current.policy,
        &started.policy,
    ) && is_of_lease(started, lease) && is_of_lease(current, lease) {
        Ok(())
    } else {
        Err(AiError::ReauthorizationFailed)
    }
}

/// No authority without access: whoever may address protected content was
/// current, was allowed both the scope and the session, and acts on a session
/// of theirs that lies in the scope, under a ready policy of that scope.
pub proof fn authority_is_earned(authority: ContentAuthority)
    requires
        authority.wf(),
    ensures
        authority@.evidence.scope_allowed && authority@.evidence.session_allowed,
        authority@.policy.ready && authority@.policy.scope@ == authority@.scope@,
        session_scope_model(authority@.session) == authority@.scope@,
        authority@.evidence.actor matches Actor::Worker { lease, principal, now, maximum_age } ==> {
            &&& fresh(principal, now, maximum_age)
            &&& authority@.session.id == lease.session_id
            &&& authority@.session.owner_subject@ == lease.principal_reference.subject@
            &&& authority@.session.state@ == "active"@
            &&& authority@.session.deleted_at is None
        },
{
}

/// Work goes on exactly while nothing that authorized it has drifted: the same
/// session, scope, and policy, column by column, and both times the very
/// principal of the lease.
pub proof fn drifted_authority_is_noticed(
    started: ContentAuthority,
    current: ContentAuthority,
    lease: AiRunLease,
)
    ensures
        authority_unchanged(started, current, lease) <==> {
            &&& started@.session.id == lease.session_id
            &&& current@.session.id == lease.session_id
            &&& current@.scope.kind@ == started@.scope.kind@
            &&& current@.scope.id@ == started@.scope.id@
            &&& text_option(current@.scope.tenant_id) == text_option(started@.scope.tenant_id)
            &&& current@.policy.scope@ == started@.policy.scope@
            &&& current@.policy.mode == started@.policy.mode
            &&& text_option(current@.policy.key_policy_reference) == text_option(
                started@.policy.key_policy_reference,
            )
            &&& current@.policy.version == started@.policy.version
            &&& current@.policy.ready == started@.policy.ready
            &&& started@.reference is Some && started@.reference->0@ == lease.principal_reference@
            &&& current@.reference is Some && current@.reference->0@ == lease.principal_reference@
        },
{
}

/// A worker's standing is current exactly while its principal is fresh.
pub proof fn workers_are_current_while_fresh(
    lease: AiRunLease,
    principal: ResolvedPrincipal,
    now: UtcTime,
    maximum_age: Duration,
)
    ensures
        actor_current(Actor::Worker { lease, principal, now, maximum_age })
            <==> principal.resolved_at.nanos <= now.nanos <= principal.resolved_at.nanos
            + maximum_age.nanos && (principal.reference.expires_at is None || now.nanos
            < principal.reference.expires_at->0.nanos),
        actor_reference(Actor::Worker { lease, principal, now, maximum_age }) == Some(
            principal.reference,
        ),
{
}

/// An owner acts on their own session alone, in the scope that it lies in, and
/// needs no resolution.
pub proof fn owners_act_on_their_own_sessions(
    kind: Seq<char>,
    subject: Seq<char>,
    session: AiSessionRecord,
    scope: AiScope,
)
    ensures
        ({
            let owner = Actor::Owner { principal_kind: kind, principal_subject: subject };
            &&& actor_bound(owner, session, scope) <==> {
                &&& session.owner_principal_kind@ == kind
                &&& session.owner_subject@ == subject
                &&& session.scope_kind@ == scope.kind@
                &&& session.scope_id@ == scope.id@
                &&& text_option(session.tenant_id) == text_option(scope.tenant_id)
            }
            &&& actor_current(owner)
            &&& actor_reference(owner) is None
        }),
{
}

} // verus!
