//! Deployment bounds of coordinator checkpoints.

use crate::authority::{
    Actor, AuthorityCheck, ContentAuthority, ContentProtectionContext, ContextModel, fresh,
};
use crate::clock::{Duration, UtcTime};
use crate::digest::{Uuid, uuid_text};
use crate::error::{
    AiError, ErrorModel, accepted_or, invalid_configuration, invalid_input, outcome, refusal,
};
use crate::principal::ResolvedPrincipal;
use vstd::prelude::*;

verus! {

/// Deployment bounds for one protected coordinator checkpoint.
#[derive(Clone, Copy, Debug, PartialEq, Eq, Structural)]
pub struct AiCoordinatorCheckpointLimits {
    maximum_state_bytes: usize,
    maximum_principal_age: Duration,
}

impl AiCoordinatorCheckpointLimits {
    /// Largest encoded state.
    pub closed spec fn state_bytes(self) -> nat {
        self.maximum_state_bytes as nat
    }

    /// Bound on the age of a principal resolution.
    pub closed spec fn principal_age(self) -> Duration {
        self.maximum_principal_age
    }

    /// Creates validated checkpoint bounds.
    ///
    /// # Errors
    ///
    /// Returns [`AiError::InvalidConfiguration`] unless state capacity is in
    /// `1..=64 MiB` and principal freshness is positive and no more than one
    /// hour.
    pub fn new(maximum_state_bytes: usize, maximum_principal_age: Duration) -> (result: Result<
        Self,
        AiError,
    >)
        ensures
            ({
                let accepted = 1 <= maximum_state_bytes <= 67_108_864 && 0
                    < maximum_principal_age.nanos <= 3_600_000_000_000;
                match result {
                    Ok(limits) => accepted && limits.state_bytes() == maximum_state_bytes
                        && limits.principal_age() == maximum_principal_age,
                    Err(error) => !accepted && error@ == ErrorModel::InvalidConfiguration(
                        "invalid coordinator-checkpoint limits"@,
                    ),
                }
            }),
    {
        if maximum_state_bytes < 1 || maximum_state_bytes > 67_108_864
            || !maximum_principal_age.is_positive() || maximum_principal_age.nanos
            > 3_600_000_000_000 {
            return Err(invalid_configuration("invalid coordinator-checkpoint limits"));
        }
        Ok(AiCoordinatorCheckpointLimits { maximum_state_bytes, maximum_principal_age })
    }

    /// Maximum serialized plaintext and protected-envelope size.
    pub fn maximum_state_bytes(self) -> (result: usize)
        ensures
            result == self.state_bytes(),
    {
        self.maximum_state_bytes
    }

    /// Maximum accepted age of each freshly resolved principal.
    pub fn maximum_principal_age(self) -> (result: Duration)
        ensures
            result == self.principal_age(),
    {
        self.maximum_principal_age
    }

    /// Accepts a worker's principal that was resolved no longer ago than these
    /// limits accept.
    pub fn admit_principal(
        self,
        check: AuthorityCheck,
        principal: &ResolvedPrincipal,
        now: UtcTime,
    ) -> (result: Result<AuthorityCheck, AiError>)
        requires
            check.wf(),
            check@.stage is Bound,
            check@.evidence.actor is Worker,
            principal.wf(),
            now.wf(),
        ensures
            refusal(result) == if fresh(*principal, now, self.principal_age()) {
                None
            } else {
                Some(ErrorModel::ReauthorizationFailed)
            },
            result matches Ok(admitted) ==> {
                &&& admitted.wf()
                &&& admitted@.scope == check@.scope
                &&& admitted@.stage is Current
                &&& admitted@.session == check@.session
                &&& admitted@.evidence.actor == (Actor::Worker {
                    lease: check@.evidence.actor->lease,
                    principal: *principal,
                    now,
                    maximum_age: self.principal_age(),
                })
            },
    {
        check.admit_principal(principal, now, self.maximum_principal_age)
    }
}

/// Accepts an encoded state within the bound.
pub fn enforce_size(encoding: &[u8], maximum: usize) -> (result: Result<(), AiError>)
    ensures
        outcome(result) == accepted_or(
            encoding@.len() <= maximum,
            ErrorModel::InvalidInput("coordinator checkpoint exceeds deployment limit"@),
        ),
{
    if encoding.len() > maximum {
        return Err(invalid_input("coordinator checkpoint exceeds deployment limit"));
    }
    Ok(())
}

/// Where the protected state of a checkpoint belongs.
pub fn checkpoint_context(checkpoint_id: Uuid, authority: &ContentAuthority) -> (context:
    ContentProtectionContext)
    requires
        authority.wf(),
    ensures
        context@ == (ContextModel {
            entity: "graphql_orm_ai_run_checkpoints"@,
            row_id: uuid_text(checkpoint_id),
            field: "protected_state"@,
            scope: authority@.scope,
        }),
{
    authority.place("graphql_orm_ai_run_checkpoints", checkpoint_id, "protected_state")
}

/// The two protected fields of a tool call.
#[derive(Clone, Copy, Debug, PartialEq, Eq, Structural)]
pub enum ToolCallField {
    Arguments,
    Result,
}

/// Where a protected field of a tool call belongs.
pub fn tool_call_context(tool_id: Uuid, field: ToolCallField, authority: &ContentAuthority) -> (context:
    ContentProtectionContext)
    requires
        authority.wf(),
    ensures
        context@ == (ContextModel {
            entity: "graphql_orm_ai_tool_calls"@,
            row_id: uuid_text(tool_id),
            field: match field {
                ToolCallField::Arguments => "protected_arguments"@,
                ToolCallField::Result => "protected_result"@,
            },
            scope: authority@.scope,
        }),
{
    match field {
        ToolCallField::Arguments => authority.place(
            "graphql_orm_ai_tool_calls",
            tool_id,
            "protected_arguments",
        ),
        ToolCallField::Result => authority.place(
            "graphql_orm_ai_tool_calls",
            tool_id,
            "protected_result",
        ),
    }
}

} // verus!
