//! Run leases, content-protection policies, and current-authority checks.

use crate::digest::Uuid;
use crate::error::{AiError, ErrorModel, accepted_or, outcome};
use crate::principal::{
    AiScope, PrincipalReference, ScopeModel, is_session_in_scope, same_scope, session_in_scope,
};
use crate::records::AiSessionRecord;
use crate::text::{blank, byte_len, is_blank, same_text_option, text_len, text_option};
use vstd::prelude::*;

verus! {

/// State of a run.
#[derive(Clone, Copy, Debug, PartialEq, Eq, Structural)]
pub enum AiRunState {
    Queued,
    Running,
    WaitingProvider,
    Completed,
    Failed,
    Cancelled,
    RecoveryRequired,
}

/// Persisted spelling of a run state.
pub open spec fn run_state_text(state: AiRunState) -> Seq<char> {
    match state {
        AiRunState::Queued => "queued"@,
        AiRunState::Running => "running"@,
        AiRunState::WaitingProvider => "waiting_provider"@,
        AiRunState::Completed => "completed"@,
        AiRunState::Failed => "failed"@,
        AiRunState::Cancelled => "cancelled"@,
        AiRunState::RecoveryRequired => "recovery_required"@,
    }
}

impl AiRunState {
    /// Persisted spelling.
    pub fn as_str(self) -> (text: &'static str)
        ensures
            text@ == run_state_text(self),
    {
        match self {
            AiRunState::Queued => "queued",
            AiRunState::Running => "running",
            AiRunState::WaitingProvider => "waiting_provider",
            AiRunState::Completed => "completed",
            AiRunState::Failed => "failed",
            AiRunState::Cancelled => "cancelled",
            AiRunState::RecoveryRequired => "recovery_required",
        }
    }
}

/// Proof that one worker holds one attempt of one run.
#[derive(Debug, PartialEq, Eq)]
pub struct AiRunLease {
    pub session_id: Uuid,
    pub run_id: Uuid,
    pub attempt_id: Uuid,
    pub lease_generation: i64,
    pub state: AiRunState,
    pub principal_reference: PrincipalReference,
    pub latest_checkpoint_id: Option<Uuid>,
}

impl Clone for AiRunLease {
    fn clone(&self) -> (result: Self)
        ensures
            result == *self,
    {
        AiRunLease {
            session_id: self.session_id,
            run_id: self.run_id,
            attempt_id: self.attempt_id,
            lease_generation: self.lease_generation,
            state: self.state,
            principal_reference: self.principal_reference.clone(),
            latest_checkpoint_id: self.latest_checkpoint_id,
        }
    }
}

/// How content of a scope is protected at rest.
#[derive(Clone, Copy, Debug, PartialEq, Eq, Structural)]
pub enum AiContentProtectionMode {
    DatabaseManaged,
    ApplicationEncrypted,
}

/// Current protection policy of a scope.
#[derive(Debug, PartialEq, Eq)]
pub struct AiContentProtectionPolicy {
    pub scope: AiScope,
    pub mode: AiContentProtectionMode,
    pub key_policy_reference: Option<String>,
    pub version: u64,
    pub ready: bool,
}

/// Mathematical model of [`AiContentProtectionPolicy`].
pub struct ProtectionModel {
    pub scope: ScopeModel,
    pub mode: AiContentProtectionMode,
    pub key_policy_reference: Option<Seq<char>>,
    pub version: u64,
    pub ready: bool,
}

impl View for AiContentProtectionPolicy {
    type V = ProtectionModel;

    open spec fn view(&self) -> ProtectionModel {
        ProtectionModel {
            scope: self.scope@,
            mode: self.mode,
            key_policy_reference: text_option(self.key_policy_reference),
            version: self.version,
            ready: self.ready,
        }
    }
}

/// Whether two policies are the same.
pub fn same_policy(
    left: &AiContentProtectionPolicy,
    right: &AiContentProtectionPolicy,
) -> (result: bool)
    ensures
        result == (left@ == right@),
{
    left.mode == right.mode && left.version == right.version && left.ready == right.ready
        && same_scope(&left.scope, &right.scope) && same_text_option(
        &left.key_policy_reference,
        &right.key_policy_reference,
    )
}

/// Failure of the content protector.
#[derive(Clone, Copy, Debug, PartialEq, Eq, Structural)]
pub enum ContentProtectionError {
    PolicyNotReady,
    Unavailable,
    Malformed,
}

/// Maps a protector failure to a safe error.
pub fn map_protection(error: ContentProtectionError) -> (result: AiError)
    ensures
        result@ == if error is PolicyNotReady {
            ErrorModel::RuntimeNotReady
        } else {
            ErrorModel::PersistenceFailed
        },
{
    match error {
        ContentProtectionError::PolicyNotReady => AiError::RuntimeNotReady,
        _ => AiError::PersistenceFailed,
    }
}

/// References: non-blank, at most 1024 bytes, and without ASCII control
/// characters.
pub open spec fn reference_text(value: Seq<char>) -> bool {
    &&& !blank(value)
    &&& byte_len(value) <= 1_024
    &&& forall|i: int| 0 <= i < value.len() ==> !ascii_control(#[trigger] value[i])
}

/// ASCII control characters.
pub open spec fn ascii_control(c: char) -> bool {
    c <= '\u{1f}' || c == '\u{7f}'
}

/// Whether the text is a usable reference.
pub fn valid_reference(value: &str) -> (result: bool)
    ensures
        result == reference_text(value@),
{
    if is_blank(value) || text_len(value) > 1_024 {
        return false;
    }
    for c in iter: value.chars()
        invariant
            iter.seq() == value@,
            forall|i: int| 0 <= i < iter.index() ==> !ascii_control(#[trigger] value@[i]),
    {
        if c <= '\u{1f}' || c == '\u{7f}' {
            return false;
        }
    }
    true
}

/// Accepts a principal that has both scope and session access.
pub fn require_granted(scope_allowed: bool, session_allowed: bool) -> (result: Result<(), AiError>)
    ensures
        outcome(result) == accepted_or(scope_allowed && session_allowed, ErrorModel::Forbidden),
{
    if scope_allowed && session_allowed {
        Ok(())
    } else {
        Err(AiError::Forbidden)
    }
}

/// Accepts a ready protection policy of exactly this scope.
pub fn require_ready_policy(policy: &AiContentProtectionPolicy, scope: &AiScope) -> (result: Result<
    (),
    AiError,
>)
    ensures
        outcome(result) == accepted_or(
            policy.ready && policy.scope@ == scope@,
            ErrorModel::RuntimeNotReady,
        ),
{
    if policy.ready && same_scope(&policy.scope, scope) {
        Ok(())
    } else {
        Err(AiError::RuntimeNotReady)
    }
}

/// Whether the session is the lease's own, active, owned by the lease's
/// principal, and in exactly this scope.
pub open spec fn session_bound(
    session: AiSessionRecord,
    lease: AiRunLease,
    scope: ScopeModel,
) -> bool {
    session.id == lease.session_id && session_in_scope(session, lease.principal_reference@, scope)
}

/// Accepts exactly the sessions bound to the lease and scope.
pub fn validate_session_binding(
    session: &AiSessionRecord,
    lease: &AiRunLease,
    scope: &AiScope,
) -> (result: Result<(), AiError>)
    ensures
        outcome(result) == accepted_or(
            session_bound(*session, *lease, scope@),
            ErrorModel::Forbidden,
        ),
{
    if session.id == lease.session_id && is_session_in_scope(
        session,
        &lease.principal_reference,
        scope,
    ) {
        Ok(())
    } else {
        Err(AiError::Forbidden)
    }
}

/// A lease acts in its own session alone, in the scope the session has.
pub proof fn leases_act_in_their_own_session(
    session: AiSessionRecord,
    lease: AiRunLease,
    scope: AiScope,
)
    ensures
        session_bound(session, lease, scope@) <==> {
            &&& session.id == lease.session_id
            &&& session.state@ == "active"@
            &&& session.deleted_at is None
            &&& session.owner_principal_kind@ == lease.principal_reference@.kind
            &&& session.owner_subject@ == lease.principal_reference.subject@
            &&& session.scope_kind@ == scope.kind@
            &&& session.scope_id@ == scope.id@
            &&& text_option(session.tenant_id) == text_option(scope.tenant_id)
            &&& lease.principal_reference.tenant_id is None || text_option(
                lease.principal_reference.tenant_id,
            ) == text_option(scope.tenant_id)
        },
{
}

/// Policies are the same exactly where scope, mode, key, version, and readiness
/// agree.
pub proof fn policies_agree_on_every_member(
    left: AiContentProtectionPolicy,
    right: AiContentProtectionPolicy,
)
    ensures
        left@ == right@ <==> left.scope@ == right.scope@ && left.mode == right.mode && text_option(
            left.key_policy_reference,
        ) == text_option(right.key_policy_reference) && left.version == right.version
            && left.ready == right.ready,
{
}

/// A reference is usable exactly where it is visible, at most 1024 bytes long,
/// and without ASCII control characters.
pub proof fn usable_references_are_printable(value: Seq<char>)
    ensures
        reference_text(value) <==> {
            &&& !blank(value)
            &&& byte_len(value) <= 1_024
            &&& forall|i: int|
                0 <= i < value.len() ==> ' ' <= #[trigger] value[i] && value[i] != '\u{7f}'
        },
{
}

/// The spellings of run states.
pub proof fn run_states_are_spelled_so()
    ensures
        run_state_text(AiRunState::Queued) == "queued"@,
        run_state_text(AiRunState::Running) == "running"@,
        run_state_text(AiRunState::WaitingProvider) == "waiting_provider"@,
        run_state_text(AiRunState::Completed) == "completed"@,
        run_state_text(AiRunState::Failed) == "failed"@,
        run_state_text(AiRunState::Cancelled) == "cancelled"@,
        run_state_text(AiRunState::RecoveryRequired) == "recovery_required"@,
{
}

} // verus!
