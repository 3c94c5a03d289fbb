//! Fenced top-level coordination of bounded read-only provider/tool loops.
//!
//! The coordinator is a state machine. The host performs one action at a time
//! and reports what happened; the machine answers with the next action. A
//! claimed attempt starts under its lease, adopts or plans its first turn,
//! calls the provider, checkpoints every provider turn and tool batch before
//! anything consumes it, and ends with exactly one terminal write. Ambiguous
//! handoffs close the run for recovery; nothing uncertain is ever replayed.

use crate::access::AiRunState;
use crate::checkpoints::continuation::AiAgentContinuation;
use crate::clock::Duration;
use crate::digest::Uuid;
use crate::error::{AiError, ErrorModel, invalid_configuration, invalid_input, outcome, refusal};
use crate::principal::AiScope;
use crate::text::{clone_text_option, text_option};
use vstd::prelude::*;

verus! {

/// Bounds of one agent loop.
#[derive(Clone, Copy, Debug, PartialEq, Eq, Structural)]
pub struct AiAgentLoopLimits {
    pub maximum_provider_turns: u32,
    pub maximum_tool_calls: u32,
}

/// Deployment-owned bounds for a top-level read-only agent attempt.
#[derive(Clone, Copy, Debug, PartialEq, Eq, Structural)]
pub struct AiReadOnlyAgentCoordinatorLimits {
    loop_limits: AiAgentLoopLimits,
    heartbeat_interval: Duration,
}

impl AiReadOnlyAgentCoordinatorLimits {
    /// Bounds of the agent loop.
    pub closed spec fn loop_bounds(self) -> AiAgentLoopLimits {
        self.loop_limits
    }

    /// Time between two lease renewals.
    pub closed spec fn renewal_interval(self) -> Duration {
        self.heartbeat_interval
    }

    /// Creates coordinator limits.
    ///
    /// The heartbeat interval must also be comfortably shorter than the lease
    /// TTL configured on the concrete run service. Keeping that relationship
    /// deployment-owned avoids silently changing durable lease policy here.
    ///
    /// # Errors
    ///
    /// Returns [`AiError::InvalidConfiguration`] unless the heartbeat interval
    /// is positive and no longer than five minutes.
    pub fn new(loop_limits: AiAgentLoopLimits, heartbeat_interval: Duration) -> (result: Result<
        Self,
        AiError,
    >)
        ensures
            ({
                let accepted = 0 < heartbeat_interval.nanos <= 300_000_000_000;
                match result {
                    Ok(limits) => accepted && limits.loop_bounds() == loop_limits
                        && limits.renewal_interval() == heartbeat_interval,
                    Err(error) => !accepted && error@ == ErrorModel::InvalidConfiguration(
                        "invalid agent coordinator heartbeat interval"@,
                    ),
                }
            }),
    {
        if !heartbeat_interval.is_positive() || heartbeat_interval.nanos > 300_000_000_000 {
            return Err(invalid_configuration("invalid agent coordinator heartbeat interval"));
        }
        Ok(AiReadOnlyAgentCoordinatorLimits { loop_limits, heartbeat_interval })
    }

    /// Returns the bounds of the agent loop.
    pub fn loop_limits(&self) -> (limits: AiAgentLoopLimits)
        ensures
            limits == self.loop_bounds(),
    {
        self.loop_limits
    }

    /// Returns the time between two lease renewals.
    pub fn heartbeat_interval(&self) -> (interval: Duration)
        ensures
            interval == self.renewal_interval(),
    {
        self.heartbeat_interval
    }
}

/// The part of a provider plan that the coordinator reads.
#[derive(Debug, PartialEq, Eq)]
pub struct AiProviderCallPlan {
    pub scope: AiScope,
    pub correlation_id: String,
    pub has_application_tools: bool,
    pub is_continuation: bool,
}

/// The server-selected route of tool results.
#[derive(Debug, PartialEq, Eq)]
pub struct AiToolResultEgressRoute {
    pub provider_profile_id: String,
    pub destination: String,
    pub purpose: String,
    pub retention: String,
    pub policy_version: String,
}

/// One host-planned provider turn for the read-only coordinator.
///
/// Construction proves that custom application tools are present and that the
/// result-egress route is structurally valid. It does not authorize discovery,
/// resolver execution, or egress; those decisions remain fresh per turn/call.
#[derive(Debug, PartialEq, Eq)]
pub struct AiReadOnlyAgentTurnPlan {
    provider_call: AiProviderCallPlan,
    result_egress_route: AiToolResultEgressRoute,
}

impl AiReadOnlyAgentTurnPlan {
    /// The provider plan.
    pub closed spec fn call(self) -> AiProviderCallPlan {
        self.provider_call
    }

    /// The route of every tool result in the turn.
    pub closed spec fn route(self) -> AiToolResultEgressRoute {
        self.result_egress_route
    }

    /// Binds a provider plan to the server-selected route used for every exact
    /// application-tool result in that turn. `route_check` is the result of
    /// the route's structural validation.
    ///
    /// # Errors
    ///
    /// Returns [`AiError::InvalidInput`] if the provider plan has no validated
    /// application tools, or the error of the route's validation.
    pub fn new(
        provider_call: AiProviderCallPlan,
        result_egress_route: AiToolResultEgressRoute,
        route_check: Result<(), AiError>,
    ) -> (result: Result<Self, AiError>)
        ensures
            refusal(result) == if !provider_call.has_application_tools {
                Some(ErrorModel::InvalidInput("agent turn plan has no application tools"@))
            } else {
                refusal(route_check)
            },
            result matches Ok(plan) ==> plan.call() == provider_call && plan.route()
                == result_egress_route,
    {
        if !provider_call.has_application_tools {
            return Err(invalid_input("agent turn plan has no application tools"));
        }
        match route_check {
            Ok(()) => Ok(AiReadOnlyAgentTurnPlan { provider_call, result_egress_route }),
            Err(error) => Err(error),
        }
    }

    /// Splits the plan into the provider plan, its scope, its correlation
    /// identity, and the route.
    pub fn into_parts(self) -> (parts: (
        AiProviderCallPlan,
        AiScope,
        String,
        AiToolResultEgressRoute,
    ))
        ensures
            parts.0 == self.call(),
            parts.1 == self.call().scope,
            parts.2 == self.call().correlation_id,
            parts.3 == self.route(),
    {
        let scope = self.provider_call.scope.clone();
        let correlation_id = self.provider_call.correlation_id.clone();
        (self.provider_call, scope, correlation_id, self.result_egress_route)
    }

    /// Whether the plan continues an earlier turn.
    pub fn is_continuation(&self) -> (result: bool)
        ensures
            result == self.call().is_continuation,
    {
        self.provider_call.is_continuation
    }
}

/// Rule usage accumulated by one run.
#[derive(Clone, Copy, Debug, PartialEq, Eq, Structural)]
pub struct AiRuleRunUsage {
    pub provider_calls: u64,
    pub steps: u64,
}

/// Protected state recovered from one exact completed read-only tool batch.
///
/// Fields are private so a host cannot manufacture resume counters, response
/// chaining, or model-visible tool results. It proves the prior batch's
/// durable integrity under current access and protection policy; it does not
/// authorize the next provider request, budget, or egress decision.
#[derive(Debug, PartialEq, Eq)]
pub struct AiAdoptedReadOnlyToolBatch {
    checkpoint_id: Uuid,
    provider_turns: u32,
    total_tool_calls: u32,
    scope: AiScope,
    continuation: AiAgentContinuation,
    rule_fingerprint: String,
    rule_usage: AiRuleRunUsage,
}

impl AiAdoptedReadOnlyToolBatch {
    /// The adopted checkpoint.
    pub closed spec fn checkpoint(self) -> Uuid {
        self.checkpoint_id
    }

    /// Provider turns before the batch.
    pub closed spec fn turns(self) -> u32 {
        self.provider_turns
    }

    /// Tool calls up to and with the batch.
    pub closed spec fn tool_calls(self) -> u32 {
        self.total_tool_calls
    }

    /// The reauthorized scope.
    pub closed spec fn batch_scope(self) -> AiScope {
        self.scope
    }

    /// The continuation that the next turn consumes.
    pub closed spec fn next_continuation(self) -> AiAgentContinuation {
        self.continuation
    }

    /// Fingerprint of the rules in force.
    pub closed spec fn rules(self) -> Seq<char> {
        self.rule_fingerprint@
    }

    /// Rule usage up to the batch.
    pub closed spec fn usage(self) -> AiRuleRunUsage {
        self.rule_usage
    }

    pub(crate) fn new(
        checkpoint_id: Uuid,
        provider_turns: u32,
        total_tool_calls: u32,
        scope: AiScope,
        continuation: AiAgentContinuation,
        rule_fingerprint: String,
        rule_usage: AiRuleRunUsage,
    ) -> (batch: Self)
        ensures
            batch.checkpoint() == checkpoint_id,
            batch.turns() == provider_turns,
            batch.tool_calls() == total_tool_calls,
            batch.batch_scope() == scope,
            batch.next_continuation() == continuation,
            batch.rules() == rule_fingerprint@,
            batch.usage() == rule_usage,
    {
        AiAdoptedReadOnlyToolBatch {
            checkpoint_id,
            provider_turns,
            total_tool_calls,
            scope,
            continuation,
            rule_fingerprint,
            rule_usage,
        }
    }

    /// Immutable checkpoint selected for one-shot adoption.
    pub fn checkpoint_id(&self) -> (id: Uuid)
        ensures
            id == self.checkpoint(),
    {
        self.checkpoint_id
    }

    /// Number of accepted provider turns preceding the adopted batch.
    pub fn provider_turns(&self) -> (turns: u32)
        ensures
            turns == self.turns(),
    {
        self.provider_turns
    }

    /// Number of resolved application-tool calls preceding the adopted batch.
    pub fn total_tool_calls(&self) -> (calls: u32)
        ensures
            calls == self.tool_calls(),
    {
        self.total_tool_calls
    }

    /// Application-defined scope reauthorized during adoption.
    pub fn scope(&self) -> (scope: &AiScope)
        ensures
            *scope == self.batch_scope(),
    {
        &self.scope
    }

    /// Consumes the batch into what the next turn continues from: the
    /// continuation, the fingerprint of its rules, and their usage.
    pub fn into_parts(self) -> (parts: (AiAgentContinuation, String, AiRuleRunUsage))
        ensures
            parts.0 == self.next_continuation(),
            parts.1@ == self.rules(),
            parts.2 == self.usage(),
    {
        (self.continuation, self.rule_fingerprint, self.rule_usage)
    }
}

/// External phase whose incomplete durable handoff requires reconciliation.
#[derive(Clone, Copy, Debug, PartialEq, Eq, Structural)]
#[non_exhaustive]
pub enum AiAgentRecoveryPhase {
    /// A provider request or completed provider result could not be handed to
    /// the next exact durable phase.
    ProviderTurn,
    /// A protected application-tool call could have crossed resolver execution.
    ApplicationTool,
    /// Final provider output could not be proven persisted and finalized.
    ProviderOutput,
}

/// Durable result of one coordinator-owned claimed attempt.
#[derive(Clone, Copy, Debug, PartialEq, Eq, Structural)]
#[non_exhaustive]
pub enum AiReadOnlyAgentRunOutcome {
    /// Final assistant output was persisted and the run committed `Completed`.
    Completed {
        /// Persisted assistant message identifier.
        message_id: Uuid,
        /// Accepted provider-turn count.
        provider_turns: u32,
        /// Durably resolved application-tool call count.
        total_tool_calls: u32,
    },
    /// A proof/configuration failure was durably classified as safe failure.
    Failed {
        /// Accepted provider-turn count.
        provider_turns: u32,
        /// Durably resolved application-tool call count.
        total_tool_calls: u32,
    },
    /// An external boundary remained ambiguous and the run was durably closed
    /// for privileged reconciliation instead of being replayed.
    RecoveryRequired {
        /// Phase whose completion could not be proven.
        phase: AiAgentRecoveryPhase,
        /// Accepted provider-turn count.
        provider_turns: u32,
        /// Durably resolved application-tool call count.
        total_tool_calls: u32,
    },
}

/// Why a run ends.
#[derive(Clone, Copy, Debug, PartialEq, Eq, Structural)]
pub enum FinishCode {
    AgentCompleted,
    CheckpointAdoptionFailed,
    CheckpointAdoptionReferenceInvalid,
    CheckpointAdoptionLimitsInvalid,
    AdoptedContinuationPlanFailed,
    AdoptedContinuationPlanInvalid,
    CheckpointConsumptionFailed,
    InitialPlanFailed,
    InitialPlanPhaseInvalid,
    ProviderTurnUncertain,
    ProviderTurnBindingFailed,
    ProviderTurnCheckpointUncertain,
    ProviderOutputUncertain,
    ApplicationToolUncertain,
    ApplicationToolResultUnavailable,
    ApplicationToolBatchInvalid,
    ApplicationToolBatchCheckpointUncertain,
    ContinuationPlanFailed,
    ContinuationPlanPhaseInvalid,
    ApplicationToolCheckpointMissing,
    ApplicationToolCheckpointConsumptionFailed,
}

/// Persisted spelling of a finish code.
pub open spec fn finish_code_text(code: FinishCode) -> Seq<char> {
    match code {
        FinishCode::AgentCompleted => "agent_completed"@,
        FinishCode::CheckpointAdoptionFailed => "checkpoint_adoption_failed"@,
        FinishCode::CheckpointAdoptionReferenceInvalid => "checkpoint_adoption_reference_invalid"@,
        FinishCode::CheckpointAdoptionLimitsInvalid => "checkpoint_adoption_limits_invalid"@,
        FinishCode::AdoptedContinuationPlanFailed => "adopted_continuation_plan_failed"@,
        FinishCode::AdoptedContinuationPlanInvalid => "adopted_continuation_plan_invalid"@,
        FinishCode::CheckpointConsumptionFailed => "checkpoint_consumption_failed"@,
        FinishCode::InitialPlanFailed => "initial_plan_failed"@,
        FinishCode::InitialPlanPhaseInvalid => "initial_plan_phase_invalid"@,
        FinishCode::ProviderTurnUncertain => "provider_turn_uncertain"@,
        FinishCode::ProviderTurnBindingFailed => "provider_turn_binding_failed"@,
        FinishCode::ProviderTurnCheckpointUncertain => "provider_turn_checkpoint_uncertain"@,
        FinishCode::ProviderOutputUncertain => "provider_output_uncertain"@,
        FinishCode::ApplicationToolUncertain => "application_tool_uncertain"@,
        FinishCode::ApplicationToolResultUnavailable => "application_tool_result_unavailable"@,
        FinishCode::ApplicationToolBatchInvalid => "application_tool_batch_invalid"@,
        FinishCode::ApplicationToolBatchCheckpointUncertain =>
            "application_tool_batch_checkpoint_uncertain"@,
        FinishCode::ContinuationPlanFailed => "continuation_plan_failed"@,
        FinishCode::ContinuationPlanPhaseInvalid => "continuation_plan_phase_invalid"@,
        FinishCode::ApplicationToolCheckpointMissing => "application_tool_checkpoint_missing"@,
        FinishCode::ApplicationToolCheckpointConsumptionFailed =>
            "application_tool_checkpoint_consumption_failed"@,
    }
}

/// Persisted spelling of a finish code.
pub fn finish_code_value(code: FinishCode) -> (text: &'static str)
    ensures
        text@ == finish_code_text(code),
{
    match code {
        FinishCode::AgentCompleted => "agent_completed",
        FinishCode::CheckpointAdoptionFailed => "checkpoint_adoption_failed",
        FinishCode::CheckpointAdoptionReferenceInvalid => "checkpoint_adoption_reference_invalid",
        FinishCode::CheckpointAdoptionLimitsInvalid => "checkpoint_adoption_limits_invalid",
        FinishCode::AdoptedContinuationPlanFailed => "adopted_continuation_plan_failed",
        FinishCode::AdoptedContinuationPlanInvalid => "adopted_continuation_plan_invalid",
        FinishCode::CheckpointConsumptionFailed => "checkpoint_consumption_failed",
        FinishCode::InitialPlanFailed => "initial_plan_failed",
        FinishCode::InitialPlanPhaseInvalid => "initial_plan_phase_invalid",
        FinishCode::ProviderTurnUncertain => "provider_turn_uncertain",
        FinishCode::ProviderTurnBindingFailed => "provider_turn_binding_failed",
        FinishCode::ProviderTurnCheckpointUncertain => "provider_turn_checkpoint_uncertain",
        FinishCode::ProviderOutputUncertain => "provider_output_uncertain",
        FinishCode::ApplicationToolUncertain => "application_tool_uncertain",
        FinishCode::ApplicationToolResultUnavailable => "application_tool_result_unavailable",
        FinishCode::ApplicationToolBatchInvalid => "application_tool_batch_invalid",
        FinishCode::ApplicationToolBatchCheckpointUncertain =>
            "application_tool_batch_checkpoint_uncertain",
        FinishCode::ContinuationPlanFailed => "continuation_plan_failed",
        FinishCode::ContinuationPlanPhaseInvalid => "continuation_plan_phase_invalid",
        FinishCode::ApplicationToolCheckpointMissing => "application_tool_checkpoint_missing",
        FinishCode::ApplicationToolCheckpointConsumptionFailed =>
            "application_tool_checkpoint_consumption_failed",
    }
}

/// Turns accepted and tool calls resolved so far.
#[derive(Clone, Copy, Debug, PartialEq, Eq, Structural)]
pub struct LoopCounters {
    pub provider_turns: u32,
    pub total_tool_calls: u32,
}

/// What an accepted provider turn asks for.
#[derive(Clone, Copy, Debug, PartialEq, Eq, Structural)]
pub enum AiAgentLoopTurn {
    /// The turn is final.
    Completed,
    /// The turn requests application tools.
    ToolCalls { provider_turn_index: u32, call_count: usize },
}

/// Where an attempt stands.
#[derive(Clone, Copy, Debug, PartialEq, Eq, Structural)]
pub enum Phase {
    Starting,
    Adopting,
    Referencing,
    Resuming,
    PlanningAdopted,
    ConsumingAdopted,
    PlanningInitial,
    CallingProvider,
    Heartbeating,
    Observing,
    CheckpointingTurn { turn: AiAgentLoopTurn },
    PersistingOutput,
    ExecutingTool { provider_turn_index: u32, call_count: usize, tool_call_index: usize },
    ObservingTool { provider_turn_index: u32, call_count: usize, tool_call_index: usize },
    Continuing,
    CheckpointingBatch,
    PlanningContinuation { has_checkpoint: bool },
    ConsumingBatch,
    Finishing { outcome: AiReadOnlyAgentRunOutcome },
    Ended,
}

/// One claimed attempt under coordination.
#[derive(Clone, Copy, Debug, PartialEq, Eq, Structural)]
pub struct AiReadOnlyAgentCoordinator {
    pub phase: Phase,
    pub counters: LoopCounters,
}

/// What the host reports about the action it performed.
#[derive(Clone, Copy, Debug, PartialEq, Eq, Structural)]
pub enum CoordinatorEvent {
    /// The action failed; the host keeps the error.
    Failed,
    /// The lease was started; `has_checkpoint` says whether it carries one.
    Started { has_checkpoint: bool },
    /// A completed tool batch was adopted from the checkpoint, or none was
    /// there.
    Adopted { present: bool },
    /// The adopted continuation has a chain reference.
    Referenced,
    /// The loop guard resumed with these counters.
    Resumed { counters: LoopCounters },
    /// The planner returned a plan; `scope_matches` says whether its scope is
    /// the adopted one.
    Planned { is_continuation: bool, scope_matches: bool },
    /// The checkpoint was consumed under the current lease.
    Consumed,
    /// The heartbeat interval passed while the provider was working.
    HeartbeatDue,
    /// The lease was renewed.
    Heartbeated,
    /// The provider returned a result.
    ProviderReturned,
    /// The loop guard accepted the provider turn.
    TurnObserved { turn: AiAgentLoopTurn, counters: LoopCounters },
    /// The loop guard refused the provider turn, and holds these counters.
    TurnRefused { counters: LoopCounters },
    /// The provider turn was checkpointed.
    TurnCheckpointed,
    /// The final output was persisted as this message.
    OutputPersisted { message_id: Uuid },
    /// The call context of the next tool could not be built.
    ToolContextInvalid,
    /// The tool call was executed and durably resolved.
    ToolExecuted,
    /// The loop guard accepted the tool result.
    ToolObserved { counters: LoopCounters },
    /// The loop guard refused the tool result, and holds these counters.
    ToolRefused { counters: LoopCounters },
    /// The loop guard built the continuation of the batch.
    ContinuationBuilt,
    /// The tool batch was checkpointed; `has_checkpoint` says whether the
    /// renewed lease carries the checkpoint.
    BatchCheckpointed { has_checkpoint: bool },
    /// The terminal write was committed.
    Finished,
}

/// What the host does next.
#[derive(Clone, Copy, Debug, PartialEq, Eq, Structural)]
pub enum CoordinatorAction {
    /// Start the claimed lease.
    Start,
    /// Adopt the tool batch of the lease's checkpoint.
    AdoptToolBatch,
    /// Take the chain reference of the adopted continuation.
    TakeChainReference,
    /// Resume the loop guard after the adopted batch.
    ResumeGuard,
    /// Plan the turn that continues the adopted batch.
    PlanAdoptedContinuation,
    /// Plan the first turn.
    PlanInitial,
    /// Consume the lease's checkpoint.
    ConsumeCheckpoint,
    /// Call the provider with the planned turn.
    CallProvider,
    /// Renew the lease while the provider works.
    RenewLease,
    /// Go on waiting for the provider.
    AwaitProvider,
    /// Let the loop guard observe the provider result.
    ObserveTurn,
    /// Checkpoint the provider turn.
    CheckpointTurn,
    /// Persist the final output.
    PersistOutput,
    /// Execute one tool call of the turn.
    ExecuteTool { provider_turn_index: u32, tool_call_index: usize },
    /// Let the loop guard observe the tool result.
    ObserveTool,
    /// Build the continuation of the batch.
    BuildContinuation,
    /// Checkpoint the tool batch.
    CheckpointBatch,
    /// Plan the turn that continues the batch.
    PlanContinuation,
    /// Commit the terminal write. `with_response_id` says whether it names the
    /// response of the last provider result.
    Finish { state: AiRunState, code: FinishCode, with_response_id: bool },
    /// Return the outcome.
    Return { outcome: AiReadOnlyAgentRunOutcome },
    /// Return the error of the failed action.
    Propagate,
}

/// Whether the event can follow in this phase.
pub open spec fn event_fits(phase: Phase, event: CoordinatorEvent) -> bool {
    match phase {
        Phase::Starting => event is Failed || event is Started,
        Phase::Adopting => event is Failed || event is Adopted,
        Phase::Referencing => event is Failed || event is Referenced,
        Phase::Resuming => event is Failed || event is Resumed,
        Phase::PlanningAdopted => event is Failed || event is Planned,
        Phase::ConsumingAdopted => event is Failed || event is Consumed,
        Phase::PlanningInitial => event is Failed || event is Planned,
        Phase::CallingProvider => event is Failed || event is ProviderReturned || event
            is HeartbeatDue,
        Phase::Heartbeating => event is Failed || event is Heartbeated,
        Phase::Observing => event is TurnRefused || event is TurnObserved,
        Phase::CheckpointingTurn { .. } => event is Failed || event is TurnCheckpointed,
        Phase::PersistingOutput => event is Failed || event is OutputPersisted,
        Phase::ExecutingTool { .. } => event is Failed || event is ToolExecuted || event
            is ToolContextInvalid,
        Phase::ObservingTool { .. } => event is ToolRefused || event is ToolObserved,
        Phase::Continuing => event is Failed || event is ContinuationBuilt,
        Phase::CheckpointingBatch => event is Failed || event is BatchCheckpointed,
        Phase::PlanningContinuation { .. } => event is Failed || event is Planned,
        Phase::ConsumingBatch => event is Failed || event is Consumed,
        Phase::Finishing { .. } => event is Failed || event is Finished,
        Phase::Ended => false,
    }
}

/// Ends the run as a safe failure.
pub open spec fn failing(counters: LoopCounters, code: FinishCode) -> (
    AiReadOnlyAgentCoordinator,
    CoordinatorAction,
) {
    (
        AiReadOnlyAgentCoordinator {
            phase: Phase::Finishing {
                outcome: AiReadOnlyAgentRunOutcome::Failed {
                    provider_turns: counters.provider_turns,
                    total_tool_calls: counters.total_tool_calls,
                },
            },
            counters,
        },
        CoordinatorAction::Finish { state: AiRunState::Failed, code, with_response_id: false },
    )
}

/// Closes the run for recovery.
pub open spec fn recovering(
    counters: LoopCounters,
    phase: AiAgentRecoveryPhase,
    code: FinishCode,
    with_response_id: bool,
) -> (AiReadOnlyAgentCoordinator, CoordinatorAction) {
    (
        AiReadOnlyAgentCoordinator {
            phase: Phase::Finishing {
                outcome: AiReadOnlyAgentRunOutcome::RecoveryRequired {
                    phase,
                    provider_turns: counters.provider_turns,
                    total_tool_calls: counters.total_tool_calls,
                },
            },
            counters,
        },
        CoordinatorAction::Finish {
            state: AiRunState::RecoveryRequired,
            code,
            with_response_id,
        },
    )
}

/// Goes on to a phase with its action.
pub open spec fn going_on(
    counters: LoopCounters,
    phase: Phase,
    action: CoordinatorAction,
) -> (AiReadOnlyAgentCoordinator, CoordinatorAction) {
    (AiReadOnlyAgentCoordinator { phase, counters }, action)
}

/// Stops without a terminal write, or after one that could not be proven.
pub open spec fn stopping(counters: LoopCounters) -> (
    AiReadOnlyAgentCoordinator,
    CoordinatorAction,
) {
    (
        AiReadOnlyAgentCoordinator { phase: Phase::Ended, counters },
        CoordinatorAction::Propagate,
    )
}

/// The next tool call of a batch, or its continuation where none is left.
pub open spec fn next_tool(
    counters: LoopCounters,
    provider_turn_index: u32,
    call_count: usize,
    tool_call_index: usize,
) -> (AiReadOnlyAgentCoordinator, CoordinatorAction) {
    if tool_call_index < call_count {
        going_on(
            counters,
            Phase::ExecutingTool { provider_turn_index, call_count, tool_call_index },
            CoordinatorAction::ExecuteTool { provider_turn_index, tool_call_index },
        )
    } else {
        going_on(counters, Phase::Continuing, CoordinatorAction::BuildContinuation)
    }
}

/// The coordinator's transition table.
pub open spec fn transition(run: AiReadOnlyAgentCoordinator, event: CoordinatorEvent) -> (
    AiReadOnlyAgentCoordinator,
    CoordinatorAction,
) {
    let counters = run.counters;
    match run.phase {
        Phase::Starting => match event {
            CoordinatorEvent::Started { has_checkpoint } => if has_checkpoint {
                going_on(counters, Phase::Adopting, CoordinatorAction::AdoptToolBatch)
            } else {
                going_on(counters, Phase::PlanningInitial, CoordinatorAction::PlanInitial)
            },
            _ => stopping(counters),
        },
        Phase::Adopting => match event {
            CoordinatorEvent::Adopted { present: true } => going_on(
                counters,
                Phase::Referencing,
                CoordinatorAction::TakeChainReference,
            ),
            _ => recovering(
                counters,
                AiAgentRecoveryPhase::ApplicationTool,
                FinishCode::CheckpointAdoptionFailed,
                false,
            ),
        },
        Phase::Referencing => match event {
            CoordinatorEvent::Referenced => going_on(
                counters,
                Phase::Resuming,
                CoordinatorAction::ResumeGuard,
            ),
            _ => recovering(
                counters,
                AiAgentRecoveryPhase::ApplicationTool,
                FinishCode::CheckpointAdoptionReferenceInvalid,
                false,
            ),
        },
        Phase::Resuming => match event {
            CoordinatorEvent::Resumed { counters: resumed } => going_on(
                resumed,
                Phase::PlanningAdopted,
                CoordinatorAction::PlanAdoptedContinuation,
            ),
            _ => recovering(
                counters,
                AiAgentRecoveryPhase::ApplicationTool,
                FinishCode::CheckpointAdoptionLimitsInvalid,
                false,
            ),
        },
        Phase::PlanningAdopted => match event {
            CoordinatorEvent::Planned { is_continuation, scope_matches } => if is_continuation
                && scope_matches {
                going_on(counters, Phase::ConsumingAdopted, CoordinatorAction::ConsumeCheckpoint)
            } else {
                failing(counters, FinishCode::AdoptedContinuationPlanInvalid)
            },
            _ => failing(counters, FinishCode::AdoptedContinuationPlanFailed),
        },
        Phase::ConsumingAdopted => match event {
            CoordinatorEvent::Consumed => going_on(
                counters,
                Phase::CallingProvider,
                CoordinatorAction::CallProvider,
            ),
            _ => recovering(
                counters,
                AiAgentRecoveryPhase::ApplicationTool,
                FinishCode::CheckpointConsumptionFailed,
                false,
            ),
        },
        Phase::PlanningInitial => match event {
            CoordinatorEvent::Planned { is_continuation, .. } => if !is_continuation {
                going_on(counters, Phase::CallingProvider, CoordinatorAction::CallProvider)
            } else {
                failing(counters, FinishCode::InitialPlanPhaseInvalid)
            },
            _ => failing(counters, FinishCode::InitialPlanFailed),
        },
        Phase::CallingProvider => match event {
            CoordinatorEvent::ProviderReturned => going_on(
                counters,
                Phase::Observing,
                CoordinatorAction::ObserveTurn,
            ),
            CoordinatorEvent::HeartbeatDue => going_on(
                counters,
                Phase::Heartbeating,
                CoordinatorAction::RenewLease,
            ),
            _ => recovering(
                counters,
                AiAgentRecoveryPhase::ProviderTurn,
                FinishCode::ProviderTurnUncertain,
                false,
            ),
        },
        Phase::Heartbeating => match event {
            CoordinatorEvent::Heartbeated => going_on(
                counters,
                Phase::CallingProvider,
                CoordinatorAction::AwaitProvider,
            ),
            _ => stopping(counters),
        },
        Phase::Observing => match event {
            CoordinatorEvent::TurnObserved { turn, counters: observed } => going_on(
                observed,
                Phase::CheckpointingTurn { turn },
                CoordinatorAction::CheckpointTurn,
            ),
            CoordinatorEvent::TurnRefused { counters: observed } => recovering(
                observed,
                AiAgentRecoveryPhase::ProviderTurn,
                FinishCode::ProviderTurnBindingFailed,
                true,
            ),
            _ => stopping(counters),
        },
        Phase::CheckpointingTurn { turn } => match event {
            CoordinatorEvent::TurnCheckpointed => match turn {
                AiAgentLoopTurn::Completed => going_on(
                    counters,
                    Phase::PersistingOutput,
                    CoordinatorAction::PersistOutput,
                ),
                AiAgentLoopTurn::ToolCalls { provider_turn_index, call_count } => next_tool(
                    counters,
                    provider_turn_index,
                    call_count,
                    0,
                ),
            },
            _ => recovering(
                counters,
                AiAgentRecoveryPhase::ProviderTurn,
                FinishCode::ProviderTurnCheckpointUncertain,
                true,
            ),
        },
        Phase::PersistingOutput => match event {
            CoordinatorEvent::OutputPersisted { message_id } => (
                AiReadOnlyAgentCoordinator {
                    phase: Phase::Finishing {
                        outcome: AiReadOnlyAgentRunOutcome::Completed {
                            message_id,
                            provider_turns: counters.provider_turns,
                            total_tool_calls: counters.total_tool_calls,
                        },
                    },
                    counters,
                },
                CoordinatorAction::Finish {
                    state: AiRunState::Completed,
                    code: FinishCode::AgentCompleted,
                    with_response_id: true,
                },
            ),
            _ => recovering(
                counters,
                AiAgentRecoveryPhase::ProviderOutput,
                FinishCode::ProviderOutputUncertain,
                true,
            ),
        },
        Phase::ExecutingTool { provider_turn_index, call_count, tool_call_index } => match event {
            CoordinatorEvent::ToolExecuted => going_on(
                counters,
                Phase::ObservingTool { provider_turn_index, call_count, tool_call_index },
                CoordinatorAction::ObserveTool,
            ),
            CoordinatorEvent::ToolContextInvalid => stopping(counters),
            _ => recovering(
                counters,
                AiAgentRecoveryPhase::ApplicationTool,
                FinishCode::ApplicationToolUncertain,
                true,
            ),
        },
        Phase::ObservingTool { provider_turn_index, call_count, tool_call_index } => match event {
            CoordinatorEvent::ToolObserved { counters: observed } => next_tool(
                observed,
                provider_turn_index,
                call_count,
                (tool_call_index + 1) as usize,
            ),
            CoordinatorEvent::ToolRefused { counters: observed } => failing(
                observed,
                FinishCode::ApplicationToolResultUnavailable,
            ),
            _ => stopping(counters),
        },
        Phase::Continuing => match event {
            CoordinatorEvent::ContinuationBuilt => going_on(
                counters,
                Phase::CheckpointingBatch,
                CoordinatorAction::CheckpointBatch,
            ),
            _ => recovering(
                counters,
                AiAgentRecoveryPhase::ApplicationTool,
                FinishCode::ApplicationToolBatchInvalid,
                true,
            ),
        },
        Phase::CheckpointingBatch => match event {
            CoordinatorEvent::BatchCheckpointed { has_checkpoint } => going_on(
                counters,
                Phase::PlanningContinuation { has_checkpoint },
                CoordinatorAction::PlanContinuation,
            ),
            _ => recovering(
                counters,
                AiAgentRecoveryPhase::ApplicationTool,
                FinishCode::ApplicationToolBatchCheckpointUncertain,
                true,
            ),
        },
        Phase::PlanningContinuation { has_checkpoint } => match event {
            CoordinatorEvent::Planned { is_continuation, .. } => if !is_continuation {
                failing(counters, FinishCode::ContinuationPlanPhaseInvalid)
            } else if !has_checkpoint {
                recovering(
                    counters,
                    AiAgentRecoveryPhase::ApplicationTool,
                    FinishCode::ApplicationToolCheckpointMissing,
                    true,
                )
            } else {
                going_on(counters, Phase::ConsumingBatch, CoordinatorAction::ConsumeCheckpoint)
            },
            _ => failing(counters, FinishCode::ContinuationPlanFailed),
        },
        Phase::ConsumingBatch => match event {
            CoordinatorEvent::Consumed => going_on(
                counters,
                Phase::CallingProvider,
                CoordinatorAction::CallProvider,
            ),
            _ => recovering(
                counters,
                AiAgentRecoveryPhase::ApplicationTool,
                FinishCode::ApplicationToolCheckpointConsumptionFailed,
                true,
            ),
        },
        Phase::Finishing { outcome } => match event {
            CoordinatorEvent::Finished => (
                AiReadOnlyAgentCoordinator { phase: Phase::Ended, counters },
                CoordinatorAction::Return { outcome },
            ),
            _ => stopping(counters),
        },
        Phase::Ended => stopping(counters),
    }
}

impl AiReadOnlyAgentCoordinator {
    /// A batch in execution has not run past its calls.
    pub open spec fn wf(self) -> bool {
        match self.phase {
            Phase::ExecutingTool { call_count, tool_call_index, .. } => tool_call_index
                < call_count,
            Phase::ObservingTool { call_count, tool_call_index, .. } => tool_call_index
                < call_count,
            _ => true,
        }
    }

    /// A freshly claimed attempt; the host starts its lease first.
    pub fn new() -> (run: AiReadOnlyAgentCoordinator)
        ensures
            run.wf(),
            run.phase is Starting,
            run.counters == (LoopCounters { provider_turns: 0, total_tool_calls: 0 }),
    {
        AiReadOnlyAgentCoordinator {
            phase: Phase::Starting,
            counters: LoopCounters { provider_turns: 0, total_tool_calls: 0 },
        }
    }

    /// Whether the event can follow in the current phase.
    pub fn accepts(&self, event: CoordinatorEvent) -> (result: bool)
        ensures
            result == event_fits(self.phase, event),
    {
        match event {
            CoordinatorEvent::Failed => match self.phase {
                Phase::Observing | Phase::ObservingTool { .. } | Phase::Ended => false,
                _ => true,
            },
            CoordinatorEvent::Started { .. } => match self.phase {
                Phase::Starting => true,
                _ => false,
            },
            CoordinatorEvent::Adopted { .. } => match self.phase {
                Phase::Adopting => true,
                _ => false,
            },
            CoordinatorEvent::Referenced => match self.phase {
                Phase::Referencing => true,
                _ => false,
            },
            CoordinatorEvent::Resumed { .. } => match self.phase {
                Phase::Resuming => true,
                _ => false,
            },
            CoordinatorEvent::Planned { .. } => match self.phase {
                Phase::PlanningAdopted
                | Phase::PlanningInitial
                | Phase::PlanningContinuation { .. } => true,
                _ => false,
            },
            CoordinatorEvent::Consumed => match self.phase {
                Phase::ConsumingAdopted | Phase::ConsumingBatch => true,
                _ => false,
            },
            CoordinatorEvent::HeartbeatDue | CoordinatorEvent::ProviderReturned =>
                match self.phase {
                Phase::CallingProvider => true,
                _ => false,
            },
            CoordinatorEvent::Heartbeated => match self.phase {
                Phase::Heartbeating => true,
                _ => false,
            },
            CoordinatorEvent::TurnObserved { .. } | CoordinatorEvent::TurnRefused { .. } =>
                match self.phase {
                Phase::Observing => true,
                _ => false,
            },
            CoordinatorEvent::TurnCheckpointed => match self.phase {
                Phase::CheckpointingTurn { .. } => true,
                _ => false,
            },
            CoordinatorEvent::OutputPersisted { .. } => match self.phase {
                Phase::PersistingOutput => true,
                _ => false,
            },
            CoordinatorEvent::ToolContextInvalid | CoordinatorEvent::ToolExecuted =>
                match self.phase {
                Phase::ExecutingTool { .. } => true,
                _ => false,
            },
            CoordinatorEvent::ToolObserved { .. } | CoordinatorEvent::ToolRefused { .. } =>
                match self.phase {
                Phase::ObservingTool { .. } => true,
                _ => false,
            },
            CoordinatorEvent::ContinuationBuilt => match self.phase {
                Phase::Continuing => true,
                _ => false,
            },
            CoordinatorEvent::BatchCheckpointed { .. } => match self.phase {
                Phase::CheckpointingBatch => true,
                _ => false,
            },
            CoordinatorEvent::Finished => match self.phase {
                Phase::Finishing { .. } => true,
                _ => false,
            },
        }
    }

    /// Takes one event and returns the next action.
    #[verifier::rlimit(80)]
    #[verifier::spinoff_prover]
    pub fn step(&mut self, event: CoordinatorEvent) -> (action: CoordinatorAction)
        requires
            old(self).wf(),
            event_fits(old(self).phase, event),
        ensures
            (*final(self), action) == transition(*old(self), event),
            final(self).wf(),
    {
        let run = *self;
        match run.phase {
            Phase::Starting => match event {
                CoordinatorEvent::Started { has_checkpoint } => {
                    if has_checkpoint {
                        self.go_on(Phase::Adopting, CoordinatorAction::AdoptToolBatch)
                    } else {
                        self.go_on(Phase::PlanningInitial, CoordinatorAction::PlanInitial)
                    }
                },
                _ => self.stop(),
            },
            Phase::Adopting => match event {
                CoordinatorEvent::Adopted { present: true } => self.go_on(
                    Phase::Referencing,
                    CoordinatorAction::TakeChainReference,
                ),
                _ => self.recover(
                    AiAgentRecoveryPhase::ApplicationTool,
                    FinishCode::CheckpointAdoptionFailed,
                    false,
                ),
            },
            Phase::Referencing => match event {
                CoordinatorEvent::Referenced => self.go_on(
                    Phase::Resuming,
                    CoordinatorAction::ResumeGuard,
                ),
                _ => self.recover(
                    AiAgentRecoveryPhase::ApplicationTool,
                    FinishCode::CheckpointAdoptionReferenceInvalid,
                    false,
                ),
            },
            Phase::Resuming => match event {
                CoordinatorEvent::Resumed { counters } => {
                    self.counters = counters;
                    self.go_on(Phase::PlanningAdopted, CoordinatorAction::PlanAdoptedContinuation)
                },
                _ => self.recover(
                    AiAgentRecoveryPhase::ApplicationTool,
                    FinishCode::CheckpointAdoptionLimitsInvalid,
                    false,
                ),
            },
            Phase::PlanningAdopted => match event {
                CoordinatorEvent::Planned { is_continuation, scope_matches } => {
                    if is_continuation && scope_matches {
                        self.go_on(Phase::ConsumingAdopted, CoordinatorAction::ConsumeCheckpoint)
                    } else {
                        self.fail(FinishCode::AdoptedContinuationPlanInvalid)
                    }
                },
                _ => self.fail(FinishCode::AdoptedContinuationPlanFailed),
            },
            Phase::ConsumingAdopted => match event {
                CoordinatorEvent::Consumed => self.go_on(
                    Phase::CallingProvider,
                    CoordinatorAction::CallProvider,
                ),
                _ => self.recover(
                    AiAgentRecoveryPhase::ApplicationTool,
                    FinishCode::CheckpointConsumptionFailed,
                    false,
                ),
            },
            Phase::PlanningInitial => match event {
                CoordinatorEvent::Planned { is_continuation, .. } => {
                    if !is_continuation {
                        self.go_on(Phase::CallingProvider, CoordinatorAction::CallProvider)
                    } else {
                        self.fail(FinishCode::InitialPlanPhaseInvalid)
                    }
                },
                _ => self.fail(FinishCode::InitialPlanFailed),
            },
            Phase::CallingProvider => match event {
                CoordinatorEvent::ProviderReturned => self.go_on(
                    Phase::Observing,
                    CoordinatorAction::ObserveTurn,
                ),
                CoordinatorEvent::HeartbeatDue => self.go_on(
                    Phase::Heartbeating,
                    CoordinatorAction::RenewLease,
                ),
                _ => self.recover(
                    AiAgentRecoveryPhase::ProviderTurn,
                    FinishCode::ProviderTurnUncertain,
                    false,
                ),
            },
            Phase::Heartbeating => match event {
                CoordinatorEvent::Heartbeated => self.go_on(
                    Phase::CallingProvider,
                    CoordinatorAction::AwaitProvider,
                ),
                _ => self.stop(),
            },
            Phase::Observing => match event {
                CoordinatorEvent::TurnObserved { turn, counters } => {
                    self.counters = counters;
                    self.go_on(
                        Phase::CheckpointingTurn { turn },
                        CoordinatorAction::CheckpointTurn,
                    )
                },
                CoordinatorEvent::TurnRefused { counters } => {
                    self.counters = counters;
                    self.recover(
                        AiAgentRecoveryPhase::ProviderTurn,
                        FinishCode::ProviderTurnBindingFailed,
                        true,
                    )
                },
                _ => self.stop(),
            },
            Phase::CheckpointingTurn { turn } => match event {
                CoordinatorEvent::TurnCheckpointed => match turn {
                    AiAgentLoopTurn::Completed => self.go_on(
                        Phase::PersistingOutput,
                        CoordinatorAction::PersistOutput,
                    ),
                    AiAgentLoopTurn::ToolCalls { provider_turn_index, call_count } =>
                        self.enter_tool(provider_turn_index, call_count, 0),
                },
                _ => self.recover(
                    AiAgentRecoveryPhase::ProviderTurn,
                    FinishCode::ProviderTurnCheckpointUncertain,
                    true,
                ),
            },
            Phase::PersistingOutput => match event {
                CoordinatorEvent::OutputPersisted { message_id } => {
                    let outcome = AiReadOnlyAgentRunOutcome::Completed {
                        message_id,
                        provider_turns: self.counters.provider_turns,
                        total_tool_calls: self.counters.total_tool_calls,
                    };
                    self.go_on(
                        Phase::Finishing { outcome },
                        CoordinatorAction::Finish {
                            state: AiRunState::Completed,
                            code: FinishCode::AgentCompleted,
                            with_response_id: true,
                        },
                    )
                },
                _ => self.recover(
                    AiAgentRecoveryPhase::ProviderOutput,
                    FinishCode::ProviderOutputUncertain,
                    true,
                ),
            },
            Phase::ExecutingTool { provider_turn_index, call_count, tool_call_index } =>
                match event {
                CoordinatorEvent::ToolExecuted => self.go_on(
                    Phase::ObservingTool { provider_turn_index, call_count, tool_call_index },
                    CoordinatorAction::ObserveTool,
                ),
                CoordinatorEvent::ToolContextInvalid => self.stop(),
                _ => self.recover(
                    AiAgentRecoveryPhase::ApplicationTool,
                    FinishCode::ApplicationToolUncertain,
                    true,
                ),
            },
            Phase::ObservingTool { provider_turn_index, call_count, tool_call_index } =>
                match event {
                CoordinatorEvent::ToolObserved { counters } => {
                    self.counters = counters;
                    self.enter_tool(provider_turn_index, call_count, tool_call_index + 1)
                },
                CoordinatorEvent::ToolRefused { counters } => {
                    self.counters = counters;
                    self.fail(FinishCode::ApplicationToolResultUnavailable)
                },
                _ => self.stop(),
            },
            Phase::Continuing => match event {
                CoordinatorEvent::ContinuationBuilt => self.go_on(
                    Phase::CheckpointingBatch,
                    CoordinatorAction::CheckpointBatch,
                ),
                _ => self.recover(
                    AiAgentRecoveryPhase::ApplicationTool,
                    FinishCode::ApplicationToolBatchInvalid,
                    true,
                ),
            },
            Phase::CheckpointingBatch => match event {
                CoordinatorEvent::BatchCheckpointed { has_checkpoint } => self.go_on(
                    Phase::PlanningContinuation { has_checkpoint },
                    CoordinatorAction::PlanContinuation,
                ),
                _ => self.recover(
                    AiAgentRecoveryPhase::ApplicationTool,
                    FinishCode::ApplicationToolBatchCheckpointUncertain,
                    true,
                ),
            },
            Phase::PlanningContinuation { has_checkpoint } => match event {
                CoordinatorEvent::Planned { is_continuation, .. } => {
                    if !is_continuation {
                        self.fail(FinishCode::ContinuationPlanPhaseInvalid)
                    } else if !has_checkpoint {
                        self.recover(
                            AiAgentRecoveryPhase::ApplicationTool,
                            FinishCode::ApplicationToolCheckpointMissing,
                            true,
                        )
                    } else {
                        self.go_on(Phase::ConsumingBatch, CoordinatorAction::ConsumeCheckpoint)
                    }
                },
                _ => self.fail(FinishCode::ContinuationPlanFailed),
            },
            Phase::ConsumingBatch => match event {
                CoordinatorEvent::Consumed => self.go_on(
                    Phase::CallingProvider,
                    CoordinatorAction::CallProvider,
                ),
                _ => self.recover(
                    AiAgentRecoveryPhase::ApplicationTool,
                    FinishCode::ApplicationToolCheckpointConsumptionFailed,
                    true,
                ),
            },
            Phase::Finishing { outcome } => match event {
                CoordinatorEvent::Finished => self.go_on(
                    Phase::Ended,
                    CoordinatorAction::Return { outcome },
                ),
                _ => self.stop(),
            },
            Phase::Ended => self.stop(),
        }
    }

    fn go_on(&mut self, phase: Phase, action: CoordinatorAction) -> (next: CoordinatorAction)
        ensures
            (*final(self), next) == going_on(old(self).counters, phase, action),
    {
        self.phase = phase;
        action
    }

    fn stop(&mut self) -> (next: CoordinatorAction)
        ensures
            (*final(self), next) == stopping(old(self).counters),
    {
        self.phase = Phase::Ended;
        CoordinatorAction::Propagate
    }

    fn fail(&mut self, code: FinishCode) -> (next: CoordinatorAction)
        ensures
            (*final(self), next) == failing(old(self).counters, code),
    {
        let outcome = AiReadOnlyAgentRunOutcome::Failed {
            provider_turns: self.counters.provider_turns,
            total_tool_calls: self.counters.total_tool_calls,
        };
        self.phase = Phase::Finishing { outcome };
        CoordinatorAction::Finish { state: AiRunState::Failed, code, with_response_id: false }
    }

    fn recover(
        &mut self,
        phase: AiAgentRecoveryPhase,
        code: FinishCode,
        with_response_id: bool,
    ) -> (next: CoordinatorAction)
        ensures
            (*final(self), next) == recovering(old(self).counters, phase, code, with_response_id),
    {
        let outcome = AiReadOnlyAgentRunOutcome::RecoveryRequired {
            phase,
            provider_turns: self.counters.provider_turns,
            total_tool_calls: self.counters.total_tool_calls,
        };
        self.phase = Phase::Finishing { outcome };
        CoordinatorAction::Finish { state: AiRunState::RecoveryRequired, code, with_response_id }
    }

    fn enter_tool(
        &mut self,
        provider_turn_index: u32,
        call_count: usize,
        tool_call_index: usize,
    ) -> (next: CoordinatorAction)
        ensures
            (*final(self), next) == next_tool(
                old(self).counters,
                provider_turn_index,
                call_count,
                tool_call_index,
            ),
    {
        if tool_call_index < call_count {
            self.go_on(
                Phase::ExecutingTool { provider_turn_index, call_count, tool_call_index },
                CoordinatorAction::ExecuteTool { provider_turn_index, tool_call_index },
            )
        } else {
            self.go_on(Phase::Continuing, CoordinatorAction::BuildContinuation)
        }
    }
}

/// One terminal write.
#[derive(Debug, PartialEq, Eq)]
pub struct AiRunCompletion {
    pub final_state: AiRunState,
    pub outcome_code: String,
    pub safe_error_code: Option<String>,
    pub provider_response_id: Option<String>,
}

/// The terminal write of a finish action. A completed run carries no error
/// code, any other run its own code; the response is named only where the
/// action asks for it.
pub fn run_completion(
    state: AiRunState,
    code: FinishCode,
    with_response_id: bool,
    response_id: &Option<String>,
) -> (completion: AiRunCompletion)
    ensures
        completion.final_state == state,
        completion.outcome_code@ == finish_code_text(code),
        text_option(completion.safe_error_code) == if state is Completed {
            None
        } else {
            Some(finish_code_text(code))
        },
        completion.provider_response_id == if with_response_id {
            *response_id
        } else {
            None
        },
{
    let text = finish_code_value(code);
    let safe_error_code: Option<String> = match state {
        AiRunState::Completed => None,
        _ => Some(text.to_owned()),
    };
    let provider_response_id: Option<String> = if with_response_id {
        clone_text_option(response_id)
    } else {
        None
    };
    AiRunCompletion {
        final_state: state,
        outcome_code: text.to_owned(),
        safe_error_code,
        provider_response_id,
    }
}

/// States and actions along a run that starts in `run` and takes `events`.
pub open spec fn run_after(
    run: AiReadOnlyAgentCoordinator,
    events: Seq<CoordinatorEvent>,
) -> AiReadOnlyAgentCoordinator
    decreases events.len(),
{
    if events.len() == 0 {
        run
    } else {
        transition(run_after(run, events.drop_last()), events.last()).0
    }
}

/// The action that the last event leads to.
pub open spec fn last_action(
    run: AiReadOnlyAgentCoordinator,
    events: Seq<CoordinatorEvent>,
) -> CoordinatorAction {
    transition(run_after(run, events.drop_last()), events.last()).1
}

/// A provider call is only ever made right after an adopted or fresh
/// checkpoint was consumed, or on the first planned turn of an attempt that
/// had none.
pub proof fn provider_call_follows_consumption(
    run: AiReadOnlyAgentCoordinator,
    event: CoordinatorEvent,
)
    requires
        event_fits(run.phase, event),
        transition(run, event).1 is CallProvider,
    ensures
        (run.phase is ConsumingAdopted || run.phase is ConsumingBatch) && event is Consumed || (
        run.phase is PlanningInitial && event == (CoordinatorEvent::Planned {
            is_continuation: false,
            scope_matches: event->scope_matches,
        })),
{
}

/// A provider turn is durable before anything consumes it: output is persisted
/// and the first tool executed only once the turn was checkpointed.
pub proof fn turn_is_checkpointed_before_use(
    run: AiReadOnlyAgentCoordinator,
    event: CoordinatorEvent,
)
    requires
        run.wf(),
        event_fits(run.phase, event),
        transition(run, event).1 is PersistOutput || (transition(run, event).1 is ExecuteTool
            && transition(run, event).1->ExecuteTool_tool_call_index == 0),
    ensures
        run.phase is CheckpointingTurn,
        event is TurnCheckpointed,
{
}

/// The tools of a batch run one after another in the order of their calls, and
/// the batch continues only after the last of them was observed.
pub proof fn tools_run_in_order(run: AiReadOnlyAgentCoordinator, event: CoordinatorEvent)
    requires
        run.wf(),
        event_fits(run.phase, event),
    ensures
        transition(run, event).1 matches CoordinatorAction::ExecuteTool { tool_call_index, .. }
            && tool_call_index > 0 ==> event is ToolObserved && run.phase is ObservingTool
            && run.phase->ObservingTool_tool_call_index + 1
            == transition(run, event).1->ExecuteTool_tool_call_index,
        transition(run, event).1 is BuildContinuation ==> (event is ToolObserved && run.phase
            is ObservingTool && run.phase->ObservingTool_tool_call_index + 1
            == run.phase->ObservingTool_call_count) || (event is TurnCheckpointed && run.phase == (
        Phase::CheckpointingTurn {
            turn: AiAgentLoopTurn::ToolCalls {
                provider_turn_index: run.phase->CheckpointingTurn_turn->provider_turn_index,
                call_count: 0,
            },
        })),
{
}

/// An outcome is returned only after its terminal write was committed.
pub proof fn outcome_follows_terminal_write(
    run: AiReadOnlyAgentCoordinator,
    event: CoordinatorEvent,
)
    requires
        event_fits(run.phase, event),
        transition(run, event).1 is Return,
    ensures
        run.phase == (Phase::Finishing { outcome: transition(run, event).1->Return_outcome }),
        event is Finished,
        transition(run, event).0.phase is Ended,
{
}

/// The terminal write commits the state that the outcome reports, and a run
/// completes only after its output was persisted.
pub proof fn terminal_write_matches_outcome(
    run: AiReadOnlyAgentCoordinator,
    event: CoordinatorEvent,
)
    requires
        event_fits(run.phase, event),
        transition(run, event).1 is Finish,
    ensures
        ({
            let (after, action) = transition(run, event);
            let state = action->Finish_state;
            &&& after.phase is Finishing
            &&& match after.phase->Finishing_outcome {
                AiReadOnlyAgentRunOutcome::Completed { .. } => state is Completed && run.phase
                    is PersistingOutput && event is OutputPersisted,
                AiReadOnlyAgentRunOutcome::Failed { .. } => state is Failed,
                AiReadOnlyAgentRunOutcome::RecoveryRequired { .. } => state is RecoveryRequired,
            }
            &&& !(run.phase is Finishing)
        }),
{
}

/// A lost heartbeat ends the attempt with its error and without a terminal
/// write.
pub proof fn lost_heartbeat_writes_nothing(run: AiReadOnlyAgentCoordinator)
    requires
        run.phase is Heartbeating,
    ensures
        transition(run, CoordinatorEvent::Failed).1 is Propagate,
        transition(run, CoordinatorEvent::Failed).0.phase is Ended,
{
}

/// Finish actions among the actions of a run.
pub open spec fn finish_count(
    run: AiReadOnlyAgentCoordinator,
    events: Seq<CoordinatorEvent>,
) -> nat
    decreases events.len(),
{
    if events.len() == 0 {
        0
    } else {
        finish_count(run, events.drop_last()) + if last_action(run, events) is Finish {
            1nat
        } else {
            0nat
        }
    }
}

/// Whether every event fits the phase it arrives in.
pub open spec fn events_fit(
    run: AiReadOnlyAgentCoordinator,
    events: Seq<CoordinatorEvent>,
) -> bool
    decreases events.len(),
{
    events.len() > 0 ==> {
        &&& events_fit(run, events.drop_last())
        &&& event_fits(run_after(run, events.drop_last()).phase, events.last())
    }
}

/// An attempt makes at most one terminal write, whatever happens; a run that
/// has made it is finishing or has ended, and an ended run takes no event.
pub proof fn at_most_one_terminal_write(
    run: AiReadOnlyAgentCoordinator,
    events: Seq<CoordinatorEvent>,
)
    requires
        run.phase is Starting,
        events_fit(run, events),
    ensures
        finish_count(run, events) <= 1,
        finish_count(run, events) == 1 ==> run_after(run, events).phase is Finishing || run_after(
            run,
            events,
        ).phase is Ended,
        run_after(run, events).phase is Finishing ==> finish_count(run, events) == 1,
    decreases events.len(),
{
    if events.len() > 0 {
        at_most_one_terminal_write(run, events.drop_last());
    }
}

/// The spellings of finish codes.
pub proof fn finish_codes_are_spelled_so()
    ensures
        finish_code_text(FinishCode::AgentCompleted) == "agent_completed"@,
        finish_code_text(FinishCode::CheckpointAdoptionFailed) == "checkpoint_adoption_failed"@,
        finish_code_text(FinishCode::CheckpointAdoptionReferenceInvalid)
            == "checkpoint_adoption_reference_invalid"@,
        finish_code_text(FinishCode::CheckpointAdoptionLimitsInvalid)
            == "checkpoint_adoption_limits_invalid"@,
        finish_code_text(FinishCode::AdoptedContinuationPlanFailed)
            == "adopted_continuation_plan_failed"@,
        finish_code_text(FinishCode::AdoptedContinuationPlanInvalid)
            == "adopted_continuation_plan_invalid"@,
        finish_code_text(FinishCode::CheckpointConsumptionFailed)
            == "checkpoint_consumption_failed"@,
        finish_code_text(FinishCode::InitialPlanFailed) == "initial_plan_failed"@,
        finish_code_text(FinishCode::InitialPlanPhaseInvalid) == "initial_plan_phase_invalid"@,
        finish_code_text(FinishCode::ProviderTurnUncertain) == "provider_turn_uncertain"@,
        finish_code_text(FinishCode::ProviderTurnBindingFailed)
            == "provider_turn_binding_failed"@,
        finish_code_text(FinishCode::ProviderTurnCheckpointUncertain)
            == "provider_turn_checkpoint_uncertain"@,
        finish_code_text(FinishCode::ProviderOutputUncertain) == "provider_output_uncertain"@,
        finish_code_text(FinishCode::ApplicationToolUncertain) == "application_tool_uncertain"@,
        finish_code_text(FinishCode::ApplicationToolResultUnavailable)
            == "application_tool_result_unavailable"@,
        finish_code_text(FinishCode::ApplicationToolBatchInvalid)
            == "application_tool_batch_invalid"@,
        finish_code_text(FinishCode::ApplicationToolBatchCheckpointUncertain)
            == "application_tool_batch_checkpoint_uncertain"@,
        finish_code_text(FinishCode::ContinuationPlanFailed) == "continuation_plan_failed"@,
        finish_code_text(FinishCode::ContinuationPlanPhaseInvalid)
            == "continuation_plan_phase_invalid"@,
        finish_code_text(FinishCode::ApplicationToolCheckpointMissing)
            == "application_tool_checkpoint_missing"@,
        finish_code_text(FinishCode::ApplicationToolCheckpointConsumptionFailed)
            == "application_tool_checkpoint_consumption_failed"@,
{
}

/// Whoever ends a batch early, or acts on a refused turn, counts what the loop
/// guard counted; nothing else changes the counters.
pub proof fn counters_are_the_guards(run: AiReadOnlyAgentCoordinator, event: CoordinatorEvent)
    requires
        event_fits(run.phase, event),
    ensures
        transition(run, event).0.counters == match event {
            CoordinatorEvent::Resumed { counters } => counters,
            CoordinatorEvent::TurnObserved { counters, .. } => counters,
            CoordinatorEvent::TurnRefused { counters } => counters,
            CoordinatorEvent::ToolObserved { counters } => counters,
            CoordinatorEvent::ToolRefused { counters } => counters,
            _ => run.counters,
        },
{
}

} // verus!
