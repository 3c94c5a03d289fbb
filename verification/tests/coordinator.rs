//! Claimed attempts driven through the coordinator by a scripted host.

use std::collections::VecDeque;

use graphql_orm_ai::access::AiRunState;
use graphql_orm_ai::clock::Duration;
use graphql_orm_ai::coordinator::{
    AiAgentLoopLimits, AiAgentLoopTurn, AiAgentRecoveryPhase, AiProviderCallPlan,
    AiReadOnlyAgentCoordinator, AiReadOnlyAgentCoordinatorLimits, AiReadOnlyAgentRunOutcome,
    AiReadOnlyAgentTurnPlan, AiRunCompletion, AiToolResultEgressRoute, CoordinatorAction,
    CoordinatorEvent, FinishCode, LoopCounters, finish_code_value, run_completion,
};
use graphql_orm_ai::error::AiError;
use graphql_orm_ai::principal::AiScope;

/// What the provider answers to one call: the number of tools it asks for.
type Response = Result<usize, AiError>;

struct Host {
    responses: VecDeque<Response>,
    /// Whether tool results may be shown to the model.
    expose_tool_result: bool,
    /// Whether the planner keeps the continuation.
    planner_continues: bool,
    /// Whether a provider turn can be checkpointed.
    checkpoint_turns: bool,
    /// Heartbeats that come due during the first provider call, and whether
    /// they succeed.
    heartbeats_due: usize,
    heartbeat_fails: bool,
    /// Turns and tools of an adopted batch, where the lease has a checkpoint.
    adopted: Option<LoopCounters>,
    initial_plan_fails: bool,
    lease_has_checkpoint: bool,
    counters: LoopCounters,
    last_tools: usize,
    response_id: Option<String>,
    finishes: Vec<AiRunCompletion>,
    consumed: usize,
    continuation_plans: usize,
    heartbeat_count: usize,
    provider_calls: usize,
    actions: Vec<CoordinatorAction>,
}

impl Host {
    fn new(responses: Vec<Response>) -> Host {
        Host {
            responses: VecDeque::from(responses),
            expose_tool_result: true,
            planner_continues: true,
            checkpoint_turns: true,
            heartbeats_due: 0,
            heartbeat_fails: false,
            adopted: None,
            initial_plan_fails: false,
            lease_has_checkpoint: false,
            counters: LoopCounters { provider_turns: 0, total_tool_calls: 0 },
            last_tools: 0,
            response_id: None,
            finishes: Vec::new(),
            consumed: 0,
            continuation_plans: 0,
            heartbeat_count: 0,
            provider_calls: 0,
            actions: Vec::new(),
        }
    }

    fn final_states(&self) -> Vec<AiRunState> {
        self.finishes.iter().map(|completion| completion.final_state).collect()
    }

    fn plan(&mut self, continuation: bool) -> CoordinatorEvent {
        if continuation {
            self.continuation_plans += 1;
        } else if self.initial_plan_fails {
            return CoordinatorEvent::Failed;
        }
        let plan = AiReadOnlyAgentTurnPlan::new(
            AiProviderCallPlan {
                scope: test_scope(),
                correlation_id: "coordinator-test".to_owned(),
                has_application_tools: true,
                is_continuation: continuation && self.planner_continues,
            },
            test_route(),
            Ok(()),
        )
        .expect("test plans carry tools");
        CoordinatorEvent::Planned { is_continuation: plan.is_continuation(), scope_matches: true }
    }

    fn provider(&mut self) -> CoordinatorEvent {
        if self.heartbeats_due > 0 {
            self.heartbeats_due -= 1;
            return CoordinatorEvent::HeartbeatDue;
        }
        match self.responses.pop_front().expect("test provider response should exist") {
            Ok(tools) => {
                self.last_tools = tools;
                self.response_id = Some("response".to_owned());
                CoordinatorEvent::ProviderReturned
            }
            Err(_) => CoordinatorEvent::Failed,
        }
    }

    fn perform(&mut self, action: CoordinatorAction) -> CoordinatorEvent {
        self.actions.push(action);
        match action {
            CoordinatorAction::Start => {
                CoordinatorEvent::Started { has_checkpoint: self.lease_has_checkpoint }
            }
            CoordinatorAction::AdoptToolBatch => {
                CoordinatorEvent::Adopted { present: self.adopted.is_some() }
            }
            CoordinatorAction::TakeChainReference => CoordinatorEvent::Referenced,
            CoordinatorAction::ResumeGuard => {
                self.counters = self.adopted.expect("an adopted batch resumes");
                CoordinatorEvent::Resumed { counters: self.counters }
            }
            CoordinatorAction::PlanInitial => self.plan(false),
            CoordinatorAction::PlanAdoptedContinuation | CoordinatorAction::PlanContinuation => {
                self.plan(true)
            }
            CoordinatorAction::ConsumeCheckpoint => {
                assert!(self.lease_has_checkpoint, "only a held checkpoint is consumed");
                self.lease_has_checkpoint = false;
                self.consumed += 1;
                CoordinatorEvent::Consumed
            }
            CoordinatorAction::CallProvider => {
                assert!(!self.lease_has_checkpoint, "the checkpoint is consumed first");
                self.provider_calls += 1;
                self.provider()
            }
            CoordinatorAction::AwaitProvider => self.provider(),
            CoordinatorAction::RenewLease => {
                self.heartbeat_count += 1;
                if self.heartbeat_fails {
                    CoordinatorEvent::Failed
                } else {
                    CoordinatorEvent::Heartbeated
                }
            }
            CoordinatorAction::ObserveTurn => {
                let provider_turn_index = self.counters.provider_turns;
                self.counters.provider_turns += 1;
                self.counters.total_tool_calls += self.last_tools as u32;
                let turn = if self.last_tools == 0 {
                    AiAgentLoopTurn::Completed
                } else {
                    AiAgentLoopTurn::ToolCalls { provider_turn_index, call_count: self.last_tools }
                };
                CoordinatorEvent::TurnObserved { turn, counters: self.counters }
            }
            CoordinatorAction::CheckpointTurn => {
                if self.checkpoint_turns {
                    CoordinatorEvent::TurnCheckpointed
                } else {
                    CoordinatorEvent::Failed
                }
            }
            CoordinatorAction::PersistOutput => CoordinatorEvent::OutputPersisted { message_id: 99 },
            CoordinatorAction::ExecuteTool { .. } => CoordinatorEvent::ToolExecuted,
            CoordinatorAction::ObserveTool => {
                if self.expose_tool_result {
                    CoordinatorEvent::ToolObserved { counters: self.counters }
                } else {
                    CoordinatorEvent::ToolRefused { counters: self.counters }
                }
            }
            CoordinatorAction::BuildContinuation => CoordinatorEvent::ContinuationBuilt,
            CoordinatorAction::CheckpointBatch => {
                self.lease_has_checkpoint = true;
                CoordinatorEvent::BatchCheckpointed { has_checkpoint: true }
            }
            CoordinatorAction::Finish { state, code, with_response_id } => {
                self.finishes.push(run_completion(
                    state,
                    code,
                    with_response_id,
                    &self.response_id,
                ));
                CoordinatorEvent::Finished
            }
            CoordinatorAction::Return { .. } | CoordinatorAction::Propagate => {
                panic!("the attempt has ended")
            }
        }
    }

    /// Runs one attempt: its outcome, or nothing where it stopped on an error.
    fn execute_claimed(&mut self) -> Option<AiReadOnlyAgentRunOutcome> {
        let mut run = AiReadOnlyAgentCoordinator::new();
        let mut action = CoordinatorAction::Start;
        for _ in 0..200 {
            match action {
                CoordinatorAction::Return { outcome } => return Some(outcome),
                CoordinatorAction::Propagate => return None,
                _ => {}
            }
            let event = self.perform(action);
            assert!(run.accepts(event), "{event:?} answers {action:?}");
            action = run.step(event);
        }
        panic!("the attempt should end");
    }
}

fn test_scope() -> AiScope {
    AiScope::new("test", "coordinator-scope").with_tenant_id("coordinator-tenant")
}

fn test_route() -> AiToolResultEgressRoute {
    AiToolResultEgressRoute {
        provider_profile_id: "test-provider-profile".to_owned(),
        destination: "test-provider-boundary".to_owned(),
        purpose: "agent-test".to_owned(),
        retention: "none".to_owned(),
        policy_version: "egress-v1".to_owned(),
    }
}

#[test]
fn final_provider_turn_persists_output_before_completion() {
    let mut host = Host::new(vec![Ok(0)]);
    let outcome = host.execute_claimed().expect("coordinator should complete");
    assert!(matches!(
        outcome,
        AiReadOnlyAgentRunOutcome::Completed { provider_turns: 1, total_tool_calls: 0, .. }
    ));
    assert_eq!(host.final_states(), vec![AiRunState::Completed]);
    let persisted = host.actions.iter().position(|action| *action == CoordinatorAction::PersistOutput);
    let finished = host
        .actions
        .iter()
        .position(|action| matches!(action, CoordinatorAction::Finish { .. }));
    assert!(persisted.unwrap() < finished.unwrap());
}

#[test]
fn adopted_tool_batch_is_consumed_before_the_next_provider_call() {
    let mut host = Host::new(vec![Ok(0)]);
    host.lease_has_checkpoint = true;
    host.adopted = Some(LoopCounters { provider_turns: 1, total_tool_calls: 1 });
    host.initial_plan_fails = true;
    let outcome = host.execute_claimed().expect("adopted continuation should complete");
    assert!(matches!(
        outcome,
        AiReadOnlyAgentRunOutcome::Completed { provider_turns: 2, total_tool_calls: 1, .. }
    ));
    assert_eq!(host.consumed, 1);
    assert_eq!(host.continuation_plans, 1);
    assert_eq!(host.final_states(), vec![AiRunState::Completed]);
}

#[test]
fn provider_result_without_a_durable_checkpoint_requires_recovery() {
    let mut host = Host::new(vec![Ok(0)]);
    host.checkpoint_turns = false;
    let outcome = host.execute_claimed().expect("missing checkpoint should close for recovery");
    assert!(matches!(
        outcome,
        AiReadOnlyAgentRunOutcome::RecoveryRequired {
            phase: AiAgentRecoveryPhase::ProviderTurn,
            provider_turns: 1,
            total_tool_calls: 0,
        }
    ));
    assert_eq!(host.final_states(), vec![AiRunState::RecoveryRequired]);
}

#[test]
fn exact_tool_result_is_chained_into_the_next_turn() {
    let mut host = Host::new(vec![Ok(1), Ok(0)]);
    let outcome = host.execute_claimed().expect("coordinator should complete tool loop");
    assert!(matches!(
        outcome,
        AiReadOnlyAgentRunOutcome::Completed { provider_turns: 2, total_tool_calls: 1, .. }
    ));
    assert_eq!(host.continuation_plans, 1);
    assert_eq!(host.final_states(), vec![AiRunState::Completed]);
}

#[test]
fn provider_failure_is_closed_as_recovery_required() {
    let mut host = Host::new(vec![Err(AiError::ProviderFailed)]);
    let outcome = host.execute_claimed().expect("provider ambiguity should be durably classified");
    assert_eq!(
        outcome,
        AiReadOnlyAgentRunOutcome::RecoveryRequired {
            phase: AiAgentRecoveryPhase::ProviderTurn,
            provider_turns: 0,
            total_tool_calls: 0,
        }
    );
    assert_eq!(host.final_states(), vec![AiRunState::RecoveryRequired]);
    assert_eq!(host.finishes[0].outcome_code, "provider_turn_uncertain");
}

#[test]
fn unavailable_tool_egress_fails_without_a_second_provider_call() {
    let mut host = Host::new(vec![Ok(1)]);
    host.expose_tool_result = false;
    let outcome = host.execute_claimed().expect("denied result should become a durable safe failure");
    assert!(matches!(
        outcome,
        AiReadOnlyAgentRunOutcome::Failed { provider_turns: 1, total_tool_calls: 1 }
    ));
    assert_eq!(host.final_states(), vec![AiRunState::Failed]);
    assert_eq!(host.provider_calls, 1);
}

#[test]
fn continuation_planner_cannot_drop_the_opaque_continuation() {
    let mut host = Host::new(vec![Ok(1), Ok(0)]);
    host.planner_continues = false;
    let outcome = host.execute_claimed().expect("invalid continuation phase should be a safe failure");
    assert!(matches!(
        outcome,
        AiReadOnlyAgentRunOutcome::Failed { provider_turns: 1, total_tool_calls: 1 }
    ));
    assert_eq!(host.responses.len(), 1);
    assert_eq!(host.final_states(), vec![AiRunState::Failed]);
}

#[test]
fn lost_heartbeat_fence_stops_without_terminal_write() {
    let mut host = Host::new(vec![Ok(0)]);
    host.heartbeats_due = 3;
    host.heartbeat_fails = true;
    assert!(host.execute_claimed().is_none(), "lost fence must stop the attempt");
    assert!(host.heartbeat_count >= 1);
    assert!(host.final_states().is_empty());
}

#[test]
fn renewed_heartbeats_keep_the_provider_call() {
    let mut host = Host::new(vec![Ok(0)]);
    host.heartbeats_due = 3;
    assert!(host.execute_claimed().is_some());
    assert_eq!(host.heartbeat_count, 3);
    assert_eq!(host.provider_calls, 1);
}

#[test]
fn tools_of_a_batch_run_in_order() {
    let mut host = Host::new(vec![Ok(3), Ok(0)]);
    host.execute_claimed().expect("coordinator should complete tool loop");
    let indices: Vec<usize> = host
        .actions
        .iter()
        .filter_map(|action| match action {
            CoordinatorAction::ExecuteTool { tool_call_index, .. } => Some(*tool_call_index),
            _ => None,
        })
        .collect();
    assert_eq!(indices, vec![0, 1, 2]);
}

#[test]
fn no_turn_and_no_tool_runs_twice() {
    let mut host = Host::new(vec![Ok(2), Ok(1), Ok(0)]);
    host.execute_claimed().expect("the run ends");
    let executed: Vec<(u32, usize)> = host
        .actions
        .iter()
        .filter_map(|action| match action {
            CoordinatorAction::ExecuteTool { provider_turn_index, tool_call_index } => {
                Some((*provider_turn_index, *tool_call_index))
            }
            _ => None,
        })
        .collect();
    assert_eq!(executed, vec![(0, 0), (0, 1), (1, 0)]);
    let calls: Vec<usize> = (0..host.actions.len())
        .filter(|index| host.actions[*index] == CoordinatorAction::CallProvider)
        .collect();
    assert_eq!(calls.len(), 3);
    // Every further call follows the checkpoint of a batch, its plan, and the
    // consumption of that checkpoint.
    for index in &calls[1..] {
        assert_eq!(
            host.actions[index - 3..*index],
            [
                CoordinatorAction::CheckpointBatch,
                CoordinatorAction::PlanContinuation,
                CoordinatorAction::ConsumeCheckpoint,
            ]
        );
    }
}

#[test]
fn unadopted_checkpoint_requires_recovery() {
    let mut host = Host::new(Vec::new());
    host.lease_has_checkpoint = true;
    let outcome = host.execute_claimed().expect("a refused adoption is durably classified");
    assert_eq!(
        outcome,
        AiReadOnlyAgentRunOutcome::RecoveryRequired {
            phase: AiAgentRecoveryPhase::ApplicationTool,
            provider_turns: 0,
            total_tool_calls: 0,
        }
    );
    assert_eq!(host.finishes[0].safe_error_code.as_deref(), Some("checkpoint_adoption_failed"));
    assert_eq!(host.provider_calls, 0);
}

#[test]
fn completions_name_code_and_response() {
    let response = Some("resp_1".to_owned());
    let completed = run_completion(AiRunState::Completed, FinishCode::AgentCompleted, true, &response);
    assert_eq!(completed.outcome_code, "agent_completed");
    assert_eq!(completed.safe_error_code, None);
    assert_eq!(completed.provider_response_id, response);
    let failed = run_completion(AiRunState::Failed, FinishCode::InitialPlanFailed, false, &response);
    assert_eq!(failed.safe_error_code.as_deref(), Some("initial_plan_failed"));
    assert_eq!(failed.provider_response_id, None);
    assert_eq!(
        finish_code_value(FinishCode::ApplicationToolBatchCheckpointUncertain),
        "application_tool_batch_checkpoint_uncertain"
    );
}

#[test]
fn coordinator_limits_and_plans_are_validated() {
    let loop_limits = AiAgentLoopLimits { maximum_provider_turns: 4, maximum_tool_calls: 8 };
    let limits = AiReadOnlyAgentCoordinatorLimits::new(loop_limits, Duration::seconds(300)).unwrap();
    assert_eq!(limits.heartbeat_interval(), Duration::seconds(300));
    assert_eq!(limits.loop_limits(), loop_limits);
    assert!(matches!(
        AiReadOnlyAgentCoordinatorLimits::new(loop_limits, Duration::seconds(301)),
        Err(AiError::InvalidConfiguration(_))
    ));
    assert!(matches!(
        AiReadOnlyAgentCoordinatorLimits::new(loop_limits, Duration::seconds(0)),
        Err(AiError::InvalidConfiguration(_))
    ));
    let call = AiProviderCallPlan {
        scope: test_scope(),
        correlation_id: "plan".to_owned(),
        has_application_tools: false,
        is_continuation: false,
    };
    assert!(matches!(
        AiReadOnlyAgentTurnPlan::new(call, test_route(), Ok(())),
        Err(AiError::InvalidInput(_))
    ));
    let call = AiProviderCallPlan {
        scope: test_scope(),
        correlation_id: "plan".to_owned(),
        has_application_tools: true,
        is_continuation: false,
    };
    assert_eq!(
        AiReadOnlyAgentTurnPlan::new(call, test_route(), Err(AiError::EgressDenied)),
        Err(AiError::EgressDenied)
    );
}

#[test]
fn refused_turns_report_the_counters_of_the_guard() {
    let mut run = AiReadOnlyAgentCoordinator::new();
    run.step(CoordinatorEvent::Started { has_checkpoint: false });
    run.step(CoordinatorEvent::Planned { is_continuation: false, scope_matches: true });
    run.step(CoordinatorEvent::ProviderReturned);
    assert!(!run.accepts(CoordinatorEvent::Failed));
    let counters = LoopCounters { provider_turns: 1, total_tool_calls: 0 };
    assert_eq!(
        run.step(CoordinatorEvent::TurnRefused { counters }),
        CoordinatorAction::Finish {
            state: AiRunState::RecoveryRequired,
            code: FinishCode::ProviderTurnBindingFailed,
            with_response_id: true,
        }
    );
    assert_eq!(
        run.step(CoordinatorEvent::Finished),
        CoordinatorAction::Return {
            outcome: AiReadOnlyAgentRunOutcome::RecoveryRequired {
                phase: AiAgentRecoveryPhase::ProviderTurn,
                provider_turns: 1,
                total_tool_calls: 0,
            },
        }
    );
}
