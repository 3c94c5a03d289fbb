//! What holds of every run of the coordinator as a whole: in which order the
//! provider is called, turns and batches become durable, and tools run.

use crate::access::AiRunState;
use crate::coordinator::{
    AiAgentLoopTurn, AiAgentRecoveryPhase, AiReadOnlyAgentCoordinator, AiReadOnlyAgentRunOutcome,
    CoordinatorAction, CoordinatorEvent, FinishCode, LoopCounters, Phase, event_fits, events_fit,
    run_after, transition,
};
use vstd::prelude::*;

verus! {

/// The coordinator before it takes the event at `index`.
pub open spec fn before(
    run: AiReadOnlyAgentCoordinator,
    events: Seq<CoordinatorEvent>,
    index: int,
) -> AiReadOnlyAgentCoordinator {
    run_after(run, events.take(index))
}

/// The action that the event at `index` leads to.
pub open spec fn action_at(
    run: AiReadOnlyAgentCoordinator,
    events: Seq<CoordinatorEvent>,
    index: int,
) -> CoordinatorAction {
    transition(before(run, events, index), events[index]).1
}

/// Whether the provider is called after `from` and up to `to`.
pub open spec fn called_within(
    run: AiReadOnlyAgentCoordinator,
    events: Seq<CoordinatorEvent>,
    from: int,
    to: int,
) -> bool {
    exists|k: int| from < k <= to && #[trigger] action_at(run, events, k) is CallProvider
}

/// Whether the loop guard numbers the turns of the run: an accepted turn is the
/// next one and requests tools under its own index; tool results leave the
/// number of turns as it is.
pub open spec fn turns_numbered(
    run: AiReadOnlyAgentCoordinator,
    events: Seq<CoordinatorEvent>,
) -> bool {
    forall|k: int|
        0 <= k < events.len() ==> {
            let turns = #[trigger] before(run, events, k).counters.provider_turns;
            match events[k] {
                CoordinatorEvent::TurnObserved { turn, counters } => {
                    &&& counters.provider_turns == turns + 1
                    &&& turn matches AiAgentLoopTurn::ToolCalls { provider_turn_index, .. }
                        ==> provider_turn_index == turns
                },
                CoordinatorEvent::ToolObserved { counters } => counters.provider_turns == turns,
                _ => true,
            }
        }
}

/// How far a phase is between two provider calls.
spec fn stage(phase: Phase) -> int {
    match phase {
        Phase::Starting => 0,
        Phase::Adopting => 0,
        Phase::Referencing => 0,
        Phase::Resuming => 0,
        Phase::PlanningAdopted => 0,
        Phase::ConsumingAdopted => 0,
        Phase::PlanningInitial => 0,
        Phase::CallingProvider => 1,
        Phase::Heartbeating => 1,
        Phase::Observing => 2,
        Phase::CheckpointingTurn { .. } => 3,
        Phase::PersistingOutput => 4,
        Phase::ExecutingTool { .. } => 4,
        Phase::ObservingTool { .. } => 4,
        Phase::Continuing => 5,
        Phase::CheckpointingBatch => 6,
        Phase::PlanningContinuation { .. } => 6,
        Phase::ConsumingBatch => 6,
        Phase::Finishing { .. } => 7,
        Phase::Ended => 7,
    }
}

/// Index of the turn that the provider works on or has answered.
spec fn current_turn(run: AiReadOnlyAgentCoordinator) -> int {
    if stage(run.phase) >= 3 {
        run.counters.provider_turns - 1
    } else {
        run.counters.provider_turns as int
    }
}

/// Turn and progress of a batch in execution: twice the index of its tool, and
/// one more while the tool's result is observed.
spec fn batch_turn(phase: Phase) -> u32 {
    match phase {
        Phase::ExecutingTool { provider_turn_index, .. } => provider_turn_index,
        Phase::ObservingTool { provider_turn_index, .. } => provider_turn_index,
        _ => 0,
    }
}

spec fn batch_progress(phase: Phase) -> int {
    match phase {
        Phase::ExecutingTool { tool_call_index, .. } => 2 * tool_call_index,
        Phase::ObservingTool { tool_call_index, .. } => 2 * tool_call_index + 1,
        _ => 0,
    }
}

spec fn in_batch(phase: Phase) -> bool {
    phase is ExecutingTool || phase is ObservingTool
}

proof fn lemma_step(
    run: AiReadOnlyAgentCoordinator,
    events: Seq<CoordinatorEvent>,
    index: int,
)
    requires
        0 <= index < events.len(),
    ensures
        before(run, events, index + 1) == transition(before(run, events, index), events[index]).0,
{
    assert(events.take(index + 1).drop_last() =~= events.take(index));
    assert(events.take(index + 1).last() == events[index]);
}

proof fn lemma_prefix_fits(
    run: AiReadOnlyAgentCoordinator,
    events: Seq<CoordinatorEvent>,
    index: int,
)
    requires
        events_fit(run, events),
        0 <= index < events.len(),
    ensures
        event_fits(before(run, events, index).phase, events[index]),
    decreases events.len(),
{
    let shorter = events.drop_last();
    if index < shorter.len() {
        lemma_prefix_fits(run, shorter, index);
        assert(shorter.take(index) =~= events.take(index));
    } else {
        assert(events.take(index) =~= shorter);
    }
}

/// Every state of a run is well formed.
proof fn lemma_wf(run: AiReadOnlyAgentCoordinator, events: Seq<CoordinatorEvent>, index: int)
    requires
        run.wf(),
        events_fit(run, events),
        0 <= index <= events.len(),
    ensures
        before(run, events, index).wf(),
    decreases index,
{
    if index == 0 {
        assert(events.take(0) =~= Seq::empty());
    } else {
        lemma_wf(run, events, index - 1);
        lemma_step(run, events, index - 1);
        lemma_prefix_fits(run, events, index - 1);
    }
}

/// Without a provider call a run only moves on.
proof fn lemma_moves_on(
    run: AiReadOnlyAgentCoordinator,
    events: Seq<CoordinatorEvent>,
    from: int,
    to: int,
)
    requires
        0 <= from <= to < events.len(),
        !called_within(run, events, from, to),
    ensures
        stage(before(run, events, from + 1).phase) <= stage(before(run, events, to + 1).phase),
    decreases to - from,
{
    if from < to {
        assert(!called_within(run, events, from, to - 1)) by {
            if called_within(run, events, from, to - 1) {
                let k = choose|k: int|
                    from < k <= to - 1 && #[trigger] action_at(run, events, k) is CallProvider;
                assert(from < k <= to && action_at(run, events, k) is CallProvider);
            }
        }
        lemma_moves_on(run, events, from, to - 1);
        lemma_step(run, events, to);
        assert(!(action_at(run, events, to) is CallProvider));
    }
}

/// Where a tool is executed and the next one too, without a provider call in
/// between, the batch advanced by one step for each event.
proof fn lemma_batch_advances(
    run: AiReadOnlyAgentCoordinator,
    events: Seq<CoordinatorEvent>,
    from: int,
    to: int,
)
    requires
        run.wf(),
        events_fit(run, events),
        0 <= from <= to < events.len(),
        !called_within(run, events, from, to),
        in_batch(before(run, events, from + 1).phase),
        in_batch(before(run, events, to + 1).phase),
    ensures
        batch_turn(before(run, events, to + 1).phase) == batch_turn(
            before(run, events, from + 1).phase,
        ),
        batch_progress(before(run, events, to + 1).phase) == batch_progress(
            before(run, events, from + 1).phase,
        ) + (to - from),
    decreases to - from,
{
    if from < to {
        assert(forall|k: int| from < k <= to ==> !(#[trigger] action_at(run, events, k) is CallProvider));
        assert(!called_within(run, events, from, from + 1));
        assert(!called_within(run, events, from + 1, to));
        lemma_moves_on(run, events, from + 1, to);
        lemma_moves_on(run, events, from, from + 1);
        lemma_step(run, events, from + 1);
        lemma_wf(run, events, from + 1);
        lemma_prefix_fits(run, events, from + 1);
        assert(in_batch(before(run, events, from + 2).phase));
        lemma_batch_advances(run, events, from + 1, to);
    }
}

/// After the first provider call the current turn never falls, and every
/// further call is for a later turn.
proof fn lemma_turns_rise(
    run: AiReadOnlyAgentCoordinator,
    events: Seq<CoordinatorEvent>,
    from: int,
    to: int,
)
    requires
        events_fit(run, events),
        turns_numbered(run, events),
        0 <= from <= to < events.len(),
        1 <= stage(before(run, events, from + 1).phase),
        stage(before(run, events, to + 1).phase) <= 6,
    ensures
        1 <= stage(before(run, events, to + 1).phase),
        stage(before(run, events, from + 1).phase) <= 6,
        current_turn(before(run, events, from + 1)) <= current_turn(before(run, events, to + 1)),
        called_within(run, events, from, to) ==> current_turn(before(run, events, from + 1))
            < current_turn(before(run, events, to + 1)),
    decreases to - from,
{
    if from < to {
        lemma_step(run, events, to);
        lemma_prefix_fits(run, events, to);
        let last = before(run, events, to);
        assert(stage(last.phase) <= 6);
        lemma_turns_rise(run, events, from, to - 1);
        assert(current_turn(last) <= current_turn(before(run, events, to + 1)));
        if called_within(run, events, from, to) {
            let k = choose|k: int|
                from < k <= to && #[trigger] action_at(run, events, k) is CallProvider;
            if k == to {
                assert(current_turn(last) < current_turn(before(run, events, to + 1)));
            } else {
                assert(called_within(run, events, from, to - 1));
            }
        }
    } else {
        assert(!called_within(run, events, from, to));
    }
}

/// A batch in execution belongs to the current turn.
proof fn lemma_batch_is_current(
    run: AiReadOnlyAgentCoordinator,
    events: Seq<CoordinatorEvent>,
    index: int,
)
    requires
        run.phase is Starting,
        events_fit(run, events),
        turns_numbered(run, events),
        0 <= index <= events.len(),
    ensures
        ({
            let state = before(run, events, index);
            &&& in_batch(state.phase) ==> batch_turn(state.phase) == current_turn(state)
            &&& state.phase matches Phase::CheckpointingTurn {
                turn: AiAgentLoopTurn::ToolCalls { provider_turn_index, .. },
            } ==> provider_turn_index == current_turn(state)
        }),
    decreases index,
{
    if index == 0 {
        assert(events.take(0) =~= Seq::empty());
    } else {
        lemma_batch_is_current(run, events, index - 1);
        lemma_step(run, events, index - 1);
        lemma_prefix_fits(run, events, index - 1);
    }
}

/// Where the phases before the first provider call stand in a run.
proof fn lemma_early(run: AiReadOnlyAgentCoordinator, events: Seq<CoordinatorEvent>, index: int)
    requires
        run.phase is Starting,
        events_fit(run, events),
        0 <= index <= events.len(),
    ensures
        match before(run, events, index).phase {
            Phase::Starting => index == 0,
            Phase::PlanningInitial => index == 1 && starts(events, false),
            Phase::Adopting => index == 1 && starts(events, true),
            Phase::Referencing => index == 2 && starts(events, true) && events[1] == (
            CoordinatorEvent::Adopted { present: true }),
            Phase::Resuming => index == 3 && starts(events, true) && events[1] == (
            CoordinatorEvent::Adopted { present: true }) && events[2] is Referenced,
            Phase::PlanningAdopted => index == 4 && adopts(events),
            Phase::ConsumingAdopted => index == 5 && adopts(events) && continues(events[4]),
            _ => true,
        },
    decreases index,
{
    if index == 0 {
        assert(events.take(0) =~= Seq::empty());
    } else {
        lemma_early(run, events, index - 1);
        lemma_step(run, events, index - 1);
        lemma_prefix_fits(run, events, index - 1);
    }
}

/// Whether the lease was started first, with or without a checkpoint.
pub open spec fn starts(events: Seq<CoordinatorEvent>, has_checkpoint: bool) -> bool {
    events[0] == (CoordinatorEvent::Started { has_checkpoint })
}

/// Whether the run adopted a batch and resumed after it.
pub open spec fn adopts(events: Seq<CoordinatorEvent>) -> bool {
    &&& starts(events, true)
    &&& events[1] == (CoordinatorEvent::Adopted { present: true })
    &&& events[2] is Referenced
    &&& events[3] is Resumed
}

/// Whether a continuation was planned.
pub open spec fn continues(event: CoordinatorEvent) -> bool {
    event matches CoordinatorEvent::Planned { is_continuation, .. } && is_continuation
}

/// Whether the provider call at `index` is the first of an attempt that had no
/// checkpoint: it follows the initial plan.
pub open spec fn calls_initially(events: Seq<CoordinatorEvent>, index: int) -> bool {
    &&& index == 1
    &&& starts(events, false)
    &&& events[1] matches CoordinatorEvent::Planned { is_continuation, .. } && !is_continuation
}

/// Whether the provider call at `index` is the first of an attempt that
/// adopted a batch: the continuation was planned and its checkpoint consumed.
pub open spec fn calls_adopted(events: Seq<CoordinatorEvent>, index: int) -> bool {
    &&& index == 5
    &&& adopts(events)
    &&& continues(events[4])
    &&& events[5] is Consumed
}

/// Whether the provider call at `index` continues a batch of this run: the
/// batch was checkpointed, its continuation planned, and the checkpoint
/// consumed, with nothing in between.
pub open spec fn calls_continued(events: Seq<CoordinatorEvent>, index: int) -> bool {
    &&& index >= 2
    &&& events[index - 2] == (CoordinatorEvent::BatchCheckpointed { has_checkpoint: true })
    &&& continues(events[index - 1])
    &&& events[index] is Consumed
}

/// An attempt calls the provider first on its initial plan or after the
/// consumption of the checkpoint it adopted. Between a checkpointed batch and
/// the next call stand its planned continuation and the consumption of its
/// checkpoint, and there is no other call.
pub proof fn every_provider_call_is_prepared(
    run: AiReadOnlyAgentCoordinator,
    events: Seq<CoordinatorEvent>,
    index: int,
)
    requires
        run.phase is Starting,
        events_fit(run, events),
        0 <= index < events.len(),
        action_at(run, events, index) is CallProvider,
    ensures
        calls_initially(events, index) || calls_adopted(events, index) || calls_continued(
            events,
            index,
        ),
{
    lemma_early(run, events, index);
    lemma_prefix_fits(run, events, index);
    if before(run, events, index).phase is ConsumingBatch {
        assert(events.take(0) =~= Seq::empty());
        lemma_step(run, events, index - 1);
        lemma_prefix_fits(run, events, index - 1);
        assert(before(run, events, index - 1).phase == (Phase::PlanningContinuation {
            has_checkpoint: true,
        }));
        lemma_step(run, events, index - 2);
        lemma_prefix_fits(run, events, index - 2);
    }
}

/// Whether the provider returned a turn that was accepted and checkpointed at
/// `at`, and was not called again up to `index`.
pub open spec fn turn_durable(
    run: AiReadOnlyAgentCoordinator,
    events: Seq<CoordinatorEvent>,
    at: int,
    index: int,
) -> bool {
    &&& 2 <= at <= index
    &&& events[at - 2] is ProviderReturned
    &&& events[at - 1] is TurnObserved
    &&& events[at] is TurnCheckpointed
    &&& !called_within(run, events, at - 2, index)
}

/// A provider result reaches a tool or the output only after its turn was
/// checkpointed: the output at once, the tool at an index after two events for
/// each earlier tool of the batch.
pub proof fn turns_are_durable_before_use(
    run: AiReadOnlyAgentCoordinator,
    events: Seq<CoordinatorEvent>,
    index: int,
)
    requires
        run.phase is Starting,
        run.wf(),
        events_fit(run, events),
        0 <= index < events.len(),
    ensures
        action_at(run, events, index) is PersistOutput ==> turn_durable(run, events, index, index),
        action_at(run, events, index) matches CoordinatorAction::ExecuteTool {
            tool_call_index,
            ..
        } ==> turn_durable(run, events, index - 2 * tool_call_index, index),
    decreases index,
{
    let state = before(run, events, index);
    let action = action_at(run, events, index);
    assert(events.take(0) =~= Seq::empty());
    lemma_prefix_fits(run, events, index);
    lemma_wf(run, events, index);
    if action is PersistOutput || action is ExecuteTool {
        lemma_step(run, events, index - 1);
        lemma_prefix_fits(run, events, index - 1);
        let previous = before(run, events, index - 1);
        if state.phase is CheckpointingTurn {
            assert(previous.phase is Observing);
            lemma_step(run, events, index - 2);
            lemma_prefix_fits(run, events, index - 2);
            assert forall|k: int| index - 2 < k <= index implies !(#[trigger] action_at(
                run,
                events,
                k,
            ) is CallProvider) by {}
            assert(turn_durable(run, events, index, index));
        } else {
            assert(state.phase is ObservingTool);
            assert(previous.phase is ExecutingTool);
            lemma_wf(run, events, index - 1);
            lemma_step(run, events, index - 2);
            lemma_prefix_fits(run, events, index - 2);
            let earlier = previous.phase->ExecutingTool_tool_call_index;
            assert(action_at(run, events, index - 2) is ExecuteTool);
            assert(action_at(run, events, index - 2)->ExecuteTool_tool_call_index == earlier);
            turns_are_durable_before_use(run, events, index - 2);
            let at = index - 2 - 2 * earlier;
            assert(turn_durable(run, events, at, index - 2));
            assert forall|k: int| at - 2 < k <= index implies !(#[trigger] action_at(
                run,
                events,
                k,
            ) is CallProvider) by {
                if k <= index - 2 {
                    assert(!called_within(run, events, at - 2, index - 2));
                }
            }
        }
    }
}

/// Between two provider calls every tool of the turn runs at most once: a later
/// execution is of the same turn and has a larger index.
pub proof fn tools_run_once_per_call(
    run: AiReadOnlyAgentCoordinator,
    events: Seq<CoordinatorEvent>,
    first: int,
    second: int,
)
    requires
        run.phase is Starting,
        run.wf(),
        events_fit(run, events),
        0 <= first < second < events.len(),
        action_at(run, events, first) is ExecuteTool,
        action_at(run, events, second) is ExecuteTool,
        !called_within(run, events, first, second),
    ensures
        action_at(run, events, first)->ExecuteTool_provider_turn_index == action_at(
            run,
            events,
            second,
        )->ExecuteTool_provider_turn_index,
        action_at(run, events, first)->ExecuteTool_tool_call_index < action_at(
            run,
            events,
            second,
        )->ExecuteTool_tool_call_index,
{
    lemma_executing(run, events, first);
    lemma_executing(run, events, second);
    lemma_batch_advances(run, events, first, second);
}

proof fn lemma_executing(
    run: AiReadOnlyAgentCoordinator,
    events: Seq<CoordinatorEvent>,
    index: int,
)
    requires
        0 <= index < events.len(),
        action_at(run, events, index) is ExecuteTool,
    ensures
        before(run, events, index + 1).phase matches Phase::ExecutingTool {
            provider_turn_index,
            tool_call_index,
            ..
        } && action_at(run, events, index) == (CoordinatorAction::ExecuteTool {
            provider_turn_index,
            tool_call_index,
        }),
{
    lemma_step(run, events, index);
}

/// Nothing is executed twice in a run whose turns are numbered: each provider
/// call is made for a later turn than the ones before, and no two executions
/// are of the same tool of the same turn.
pub proof fn nothing_is_executed_twice(
    run: AiReadOnlyAgentCoordinator,
    events: Seq<CoordinatorEvent>,
    first: int,
    second: int,
)
    requires
        run.phase is Starting,
        run.wf(),
        events_fit(run, events),
        turns_numbered(run, events),
        0 <= first < second < events.len(),
    ensures
        action_at(run, events, first) is CallProvider && action_at(run, events, second)
            is CallProvider ==> before(run, events, first).counters.provider_turns < before(
            run,
            events,
            second,
        ).counters.provider_turns,
        action_at(run, events, first) is ExecuteTool && action_at(run, events, second)
            is ExecuteTool ==> action_at(run, events, first) != action_at(run, events, second),
{
    let first_action = action_at(run, events, first);
    let second_action = action_at(run, events, second);
    if first_action is CallProvider && second_action is CallProvider {
        lemma_step(run, events, first);
        lemma_step(run, events, second);
        assert(called_within(run, events, first, second));
        lemma_turns_rise(run, events, first, second);
    }
    if first_action is ExecuteTool && second_action is ExecuteTool {
        lemma_executing(run, events, first);
        lemma_executing(run, events, second);
        if called_within(run, events, first, second) {
            lemma_turns_rise(run, events, first, second);
            lemma_batch_is_current(run, events, first + 1);
            lemma_batch_is_current(run, events, second + 1);
        } else {
            tools_run_once_per_call(run, events, first, second);
        }
    }
}

/// Whether a run begins here, with nothing counted.
pub open spec fn begins(run: AiReadOnlyAgentCoordinator) -> bool {
    &&& run.phase is Starting
    &&& run.counters.provider_turns == 0
    &&& run.counters.total_tool_calls == 0
}

/// The action that the event at `index` reports on.
pub open spec fn asked(
    run: AiReadOnlyAgentCoordinator,
    events: Seq<CoordinatorEvent>,
    index: int,
) -> CoordinatorAction {
    if index <= 0 {
        CoordinatorAction::Start
    } else {
        action_at(run, events, index - 1)
    }
}

/// What the loop guard last counted before the event at `index`.
pub open spec fn last_counted(events: Seq<CoordinatorEvent>, index: int) -> LoopCounters
    decreases index,
{
    if index <= 0 {
        LoopCounters { provider_turns: 0, total_tool_calls: 0 }
    } else {
        match events[index - 1] {
            CoordinatorEvent::Resumed { counters } => counters,
            CoordinatorEvent::TurnObserved { counters, .. } => counters,
            CoordinatorEvent::TurnRefused { counters } => counters,
            CoordinatorEvent::ToolObserved { counters } => counters,
            CoordinatorEvent::ToolRefused { counters } => counters,
            _ => last_counted(events, index - 1),
        }
    }
}

/// Tool calls that the last accepted turn before the event at `index` requests.
pub open spec fn last_requested(events: Seq<CoordinatorEvent>, index: int) -> int
    decreases index,
{
    if index <= 0 {
        0
    } else {
        match events[index - 1] {
            CoordinatorEvent::TurnObserved {
                turn: AiAgentLoopTurn::ToolCalls { call_count, .. },
                ..
            } => call_count as int,
            CoordinatorEvent::TurnObserved { turn: AiAgentLoopTurn::Completed, .. } => 0,
            _ => last_requested(events, index - 1),
        }
    }
}

/// Whether the phase waits for a report on this action.
spec fn waits_for(phase: Phase, action: CoordinatorAction) -> bool {
    match action {
        CoordinatorAction::Start => phase is Starting,
        CoordinatorAction::AdoptToolBatch => phase is Adopting,
        CoordinatorAction::TakeChainReference => phase is Referencing,
        CoordinatorAction::ResumeGuard => phase is Resuming,
        CoordinatorAction::PlanAdoptedContinuation => phase is PlanningAdopted,
        CoordinatorAction::PlanInitial => phase is PlanningInitial,
        CoordinatorAction::ConsumeCheckpoint => phase is ConsumingAdopted || phase
            is ConsumingBatch,
        CoordinatorAction::CallProvider => phase is CallingProvider,
        CoordinatorAction::AwaitProvider => phase is CallingProvider,
        CoordinatorAction::RenewLease => phase is Heartbeating,
        CoordinatorAction::ObserveTurn => phase is Observing,
        CoordinatorAction::CheckpointTurn => phase is CheckpointingTurn,
        CoordinatorAction::PersistOutput => phase is PersistingOutput,
        CoordinatorAction::ExecuteTool { provider_turn_index, tool_call_index } => phase matches
            Phase::ExecutingTool { provider_turn_index: turn, tool_call_index: index, .. }
            && turn == provider_turn_index && index == tool_call_index,
        CoordinatorAction::ObserveTool => phase is ObservingTool,
        CoordinatorAction::BuildContinuation => phase is Continuing,
        CoordinatorAction::CheckpointBatch => phase is CheckpointingBatch,
        CoordinatorAction::PlanContinuation => phase is PlanningContinuation,
        CoordinatorAction::Finish { .. } => phase is Finishing,
        CoordinatorAction::Return { .. } => phase is Ended,
        CoordinatorAction::Propagate => phase is Ended,
    }
}

/// What the phase before the event at `index` keeps of the events before it.
spec fn recalls(
    run: AiReadOnlyAgentCoordinator,
    events: Seq<CoordinatorEvent>,
    index: int,
) -> bool {
    match before(run, events, index).phase {
        Phase::ConsumingAdopted => index >= 1 && asked(run, events, index - 1)
            is PlanAdoptedContinuation,
        Phase::ConsumingBatch => index >= 1 && asked(run, events, index - 1) is PlanContinuation,
        Phase::CheckpointingTurn { turn } => {
            &&& index >= 1
            &&& events[index - 1] matches CoordinatorEvent::TurnObserved { turn: observed, .. }
                && observed == turn
            &&& turn matches AiAgentLoopTurn::ToolCalls { call_count, .. } ==> call_count
                == last_requested(events, index)
        },
        Phase::ExecutingTool { call_count, .. } => call_count == last_requested(events, index),
        Phase::ObservingTool { provider_turn_index, call_count, tool_call_index } => {
            &&& call_count == last_requested(events, index)
            &&& index >= 1
            &&& asked(run, events, index - 1) == (CoordinatorAction::ExecuteTool {
                provider_turn_index,
                tool_call_index,
            })
        },
        Phase::PlanningContinuation { has_checkpoint } => index >= 1 && events[index - 1] == (
        CoordinatorEvent::BatchCheckpointed { has_checkpoint }),
        _ => true,
    }
}

/// Whether this is the outcome of a run whose terminal write `finish` answers
/// the event before `index`, which reports on `action`.
spec fn outcome_of(
    action: CoordinatorAction,
    finish: CoordinatorAction,
    events: Seq<CoordinatorEvent>,
    index: int,
    outcome: AiReadOnlyAgentRunOutcome,
) -> bool {
    let counted = last_counted(events, index);
    match outcome {
        AiReadOnlyAgentRunOutcome::Completed { message_id, provider_turns, total_tool_calls } => {
            &&& finish->Finish_state is Completed
            &&& events[index - 1] == (CoordinatorEvent::OutputPersisted { message_id })
            &&& provider_turns == counted.provider_turns
            &&& total_tool_calls == counted.total_tool_calls
        },
        AiReadOnlyAgentRunOutcome::Failed { provider_turns, total_tool_calls } => {
            &&& finish->Finish_state is Failed
            &&& provider_turns == counted.provider_turns
            &&& total_tool_calls == counted.total_tool_calls
        },
        AiReadOnlyAgentRunOutcome::RecoveryRequired {
            phase,
            provider_turns,
            total_tool_calls,
        } => {
            &&& finish->Finish_state is RecoveryRequired
            &&& provider_turns == counted.provider_turns
            &&& total_tool_calls == counted.total_tool_calls
            &&& phase == match action {
                CoordinatorAction::CallProvider => AiAgentRecoveryPhase::ProviderTurn,
                CoordinatorAction::AwaitProvider => AiAgentRecoveryPhase::ProviderTurn,
                CoordinatorAction::ObserveTurn => AiAgentRecoveryPhase::ProviderTurn,
                CoordinatorAction::CheckpointTurn => AiAgentRecoveryPhase::ProviderTurn,
                CoordinatorAction::PersistOutput => AiAgentRecoveryPhase::ProviderOutput,
                _ => AiAgentRecoveryPhase::ApplicationTool,
            }
        },
    }
}

proof fn lemma_waits(run: AiReadOnlyAgentCoordinator, events: Seq<CoordinatorEvent>, index: int)
    requires
        run.phase is Starting,
        0 <= index <= events.len(),
    ensures
        waits_for(before(run, events, index).phase, asked(run, events, index)),
{
    if index == 0 {
        assert(before(run, events, 0) == run);
    } else {
        lemma_step(run, events, index - 1);
    }
}

proof fn lemma_counted(
    run: AiReadOnlyAgentCoordinator,
    events: Seq<CoordinatorEvent>,
    index: int,
)
    requires
        begins(run),
        events_fit(run, events),
        0 <= index <= events.len(),
    ensures
        before(run, events, index).counters == last_counted(events, index),
    decreases index,
{
    if index == 0 {
        assert(before(run, events, 0) == run);
    } else {
        lemma_counted(run, events, index - 1);
        lemma_step(run, events, index - 1);
        lemma_prefix_fits(run, events, index - 1);
    }
}

#[verifier::rlimit(60)]
#[verifier::spinoff_prover]
proof fn lemma_recalls(
    run: AiReadOnlyAgentCoordinator,
    events: Seq<CoordinatorEvent>,
    index: int,
)
    requires
        begins(run),
        events_fit(run, events),
        0 <= index <= events.len(),
    ensures
        recalls(run, events, index),
    decreases index,
{
    if index == 0 {
        assert(before(run, events, 0) == run);
    } else {
        lemma_recalls(run, events, index - 1);
        lemma_waits(run, events, index - 1);
        lemma_step(run, events, index - 1);
        lemma_prefix_fits(run, events, index - 1);
    }
}

proof fn lemma_finishing(
    run: AiReadOnlyAgentCoordinator,
    events: Seq<CoordinatorEvent>,
    index: int,
)
    requires
        begins(run),
        events_fit(run, events),
        0 <= index <= events.len(),
        before(run, events, index).phase is Finishing,
    ensures
        index >= 1,
        outcome_of(
            asked(run, events, index - 1),
            asked(run, events, index),
            events,
            index,
            before(run, events, index).phase->Finishing_outcome,
        ),
{
    if index == 0 {
        assert(before(run, events, 0) == run);
    } else {
        lemma_counted(run, events, index);
        lemma_waits(run, events, index - 1);
        lemma_step(run, events, index - 1);
        lemma_prefix_fits(run, events, index - 1);
    }
}

/// What a run returns is what happened in it. A run returns its outcome on the
/// commit of its terminal write. A completed one names the message that its
/// output was persisted as just before that write; every outcome counts what
/// the loop guard last counted; and the phase of a recovery is that of the
/// action whose report led to the terminal write.
pub proof fn outcome_reports_the_run(
    run: AiReadOnlyAgentCoordinator,
    events: Seq<CoordinatorEvent>,
    index: int,
)
    requires
        begins(run),
        events_fit(run, events),
        0 <= index < events.len(),
        action_at(run, events, index) is Return,
    ensures
        events[index] is Finished,
        index >= 2,
        asked(run, events, index) is Finish,
        match action_at(run, events, index)->Return_outcome {
            AiReadOnlyAgentRunOutcome::Completed {
                message_id,
                provider_turns,
                total_tool_calls,
            } => {
                &&& asked(run, events, index)->Finish_state is Completed
                &&& asked(run, events, index - 1) is PersistOutput
                &&& events[index - 1] == (CoordinatorEvent::OutputPersisted { message_id })
                &&& provider_turns == last_counted(events, index).provider_turns
                &&& total_tool_calls == last_counted(events, index).total_tool_calls
            },
            AiReadOnlyAgentRunOutcome::Failed { provider_turns, total_tool_calls } => {
                &&& asked(run, events, index)->Finish_state is Failed
                &&& provider_turns == last_counted(events, index).provider_turns
                &&& total_tool_calls == last_counted(events, index).total_tool_calls
            },
            AiReadOnlyAgentRunOutcome::RecoveryRequired {
                phase,
                provider_turns,
                total_tool_calls,
            } => {
                let action = asked(run, events, index - 1);
                &&& asked(run, events, index)->Finish_state is RecoveryRequired
                &&& provider_turns == last_counted(events, index).provider_turns
                &&& total_tool_calls == last_counted(events, index).total_tool_calls
                &&& phase is ProviderTurn <==> action is CallProvider || action is AwaitProvider
                    || action is ObserveTurn || action is CheckpointTurn
                &&& phase is ProviderOutput <==> action is PersistOutput
            },
        },
{
    lemma_prefix_fits(run, events, index);
    lemma_waits(run, events, index);
    lemma_finishing(run, events, index);
    lemma_prefix_fits(run, events, index - 1);
    lemma_waits(run, events, index - 1);
    if index == 1 {
        assert(before(run, events, 0) == run);
        lemma_step(run, events, 0);
    }
}

/// Whether this ends the run as a failure, with its code.
pub open spec fn fails_with(action: CoordinatorAction, code: FinishCode) -> bool {
    action == (CoordinatorAction::Finish {
        state: AiRunState::Failed,
        code,
        with_response_id: false,
    })
}

/// Whether this closes the run for recovery, with its code, and names the last
/// response or none.
pub open spec fn recovers_with(
    action: CoordinatorAction,
    code: FinishCode,
    with_response_id: bool,
) -> bool {
    action == (CoordinatorAction::Finish {
        state: AiRunState::RecoveryRequired,
        code,
        with_response_id,
    })
}

/// Every success leads on: to the next durable step, in their one order, with
/// every requested tool executed exactly once before the batch continues, and
/// to the return of the outcome once the terminal write is committed.
#[verifier::rlimit(60)]
#[verifier::spinoff_prover]
pub proof fn success_leads_on(
    run: AiReadOnlyAgentCoordinator,
    events: Seq<CoordinatorEvent>,
    index: int,
)
    requires
        begins(run),
        events_fit(run, events),
        0 <= index < events.len(),
    ensures
        ({
            let action = action_at(run, events, index);
            match events[index] {
                CoordinatorEvent::Started { has_checkpoint } => if has_checkpoint {
                    action is AdoptToolBatch
                } else {
                    action is PlanInitial
                },
                CoordinatorEvent::Adopted { present } => if present {
                    action is TakeChainReference
                } else {
                    recovers_with(action, FinishCode::CheckpointAdoptionFailed, false)
                },
                CoordinatorEvent::Referenced => action is ResumeGuard,
                CoordinatorEvent::Resumed { .. } => action is PlanAdoptedContinuation,
                CoordinatorEvent::Consumed => action is CallProvider,
                CoordinatorEvent::HeartbeatDue => action is RenewLease,
                CoordinatorEvent::Heartbeated => action is AwaitProvider,
                CoordinatorEvent::ProviderReturned => action is ObserveTurn,
                CoordinatorEvent::TurnObserved { .. } => action is CheckpointTurn,
                CoordinatorEvent::TurnCheckpointed => index >= 1 && match events[index - 1] {
                    CoordinatorEvent::TurnObserved { turn: AiAgentLoopTurn::Completed, .. } =>
                        action is PersistOutput,
                    CoordinatorEvent::TurnObserved {
                        turn: AiAgentLoopTurn::ToolCalls { provider_turn_index, call_count },
                        ..
                    } => if call_count > 0 {
                        action == (CoordinatorAction::ExecuteTool {
                            provider_turn_index,
                            tool_call_index: 0,
                        })
                    } else {
                        action is BuildContinuation
                    },
                    _ => false,
                },
                CoordinatorEvent::OutputPersisted { .. } => action == (CoordinatorAction::Finish {
                    state: AiRunState::Completed,
                    code: FinishCode::AgentCompleted,
                    with_response_id: true,
                }),
                CoordinatorEvent::ToolExecuted => action is ObserveTool,
                CoordinatorEvent::ToolObserved { .. } => index >= 1 && match asked(
                    run,
                    events,
                    index - 1,
                ) {
                    CoordinatorAction::ExecuteTool { provider_turn_index, tool_call_index } => if
                        tool_call_index + 1 < last_requested(events, index) {
                        action == (CoordinatorAction::ExecuteTool {
                            provider_turn_index,
                            tool_call_index: (tool_call_index + 1) as usize,
                        })
                    } else {
                        action is BuildContinuation
                    },
                    _ => false,
                },
                CoordinatorEvent::ContinuationBuilt => action is CheckpointBatch,
                CoordinatorEvent::BatchCheckpointed { .. } => action is PlanContinuation,
                CoordinatorEvent::Finished => action is Return,
                _ => true,
            }
        }),
{
    lemma_waits(run, events, index);
    lemma_recalls(run, events, index);
    lemma_wf(run, events, index);
    lemma_prefix_fits(run, events, index);
}

/// A plan is followed only where it is of the phase that it was asked for: the
/// first turn begins a chain, an adopted one continues it in the adopted scope,
/// and a later one continues a batch whose checkpoint the lease carries.
/// Anything else ends the run, as a failure where the plan is at fault.
#[verifier::rlimit(60)]
#[verifier::spinoff_prover]
pub proof fn plans_are_followed_in_their_phase(
    run: AiReadOnlyAgentCoordinator,
    events: Seq<CoordinatorEvent>,
    index: int,
)
    requires
        begins(run),
        events_fit(run, events),
        0 <= index < events.len(),
        events[index] is Planned,
    ensures
        ({
            let action = action_at(run, events, index);
            let continuation = events[index]->is_continuation;
            match asked(run, events, index) {
                CoordinatorAction::PlanInitial => if continuation {
                    fails_with(action, FinishCode::InitialPlanPhaseInvalid)
                } else {
                    action is CallProvider
                },
                CoordinatorAction::PlanAdoptedContinuation => if continuation
                    && events[index]->scope_matches {
                    action is ConsumeCheckpoint
                } else {
                    fails_with(action, FinishCode::AdoptedContinuationPlanInvalid)
                },
                CoordinatorAction::PlanContinuation => if !continuation {
                    fails_with(action, FinishCode::ContinuationPlanPhaseInvalid)
                } else if index >= 1 && events[index - 1] == (
                CoordinatorEvent::BatchCheckpointed { has_checkpoint: true }) {
                    action is ConsumeCheckpoint
                } else {
                    recovers_with(action, FinishCode::ApplicationToolCheckpointMissing, true)
                },
                _ => false,
            }
        }),
{
    lemma_waits(run, events, index);
    lemma_recalls(run, events, index);
    lemma_prefix_fits(run, events, index);
}

/// Every failure closes the run by what it leaves uncertain. A failed plan or
/// an unavailable tool result leaves nothing so, and the run fails. A lost
/// lease, an unprovable terminal write, and an invalid tool context end the
/// attempt with their error. Everything else requires recovery, and names the
/// response of the turn once the provider has returned it.
#[verifier::rlimit(60)]
#[verifier::spinoff_prover]
pub proof fn failures_close_by_what_is_uncertain(
    run: AiReadOnlyAgentCoordinator,
    events: Seq<CoordinatorEvent>,
    index: int,
)
    requires
        begins(run),
        events_fit(run, events),
        0 <= index < events.len(),
    ensures
        ({
            let action = action_at(run, events, index);
            match events[index] {
                CoordinatorEvent::TurnRefused { .. } => recovers_with(
                    action,
                    FinishCode::ProviderTurnBindingFailed,
                    true,
                ),
                CoordinatorEvent::ToolRefused { .. } => fails_with(
                    action,
                    FinishCode::ApplicationToolResultUnavailable,
                ),
                CoordinatorEvent::ToolContextInvalid => action is Propagate,
                CoordinatorEvent::Failed => match asked(run, events, index) {
                    CoordinatorAction::Start => action is Propagate,
                    CoordinatorAction::RenewLease => action is Propagate,
                    CoordinatorAction::Finish { .. } => action is Propagate,
                    CoordinatorAction::PlanInitial => fails_with(
                        action,
                        FinishCode::InitialPlanFailed,
                    ),
                    CoordinatorAction::PlanAdoptedContinuation => fails_with(
                        action,
                        FinishCode::AdoptedContinuationPlanFailed,
                    ),
                    CoordinatorAction::PlanContinuation => fails_with(
                        action,
                        FinishCode::ContinuationPlanFailed,
                    ),
                    CoordinatorAction::AdoptToolBatch => recovers_with(
                        action,
                        FinishCode::CheckpointAdoptionFailed,
                        false,
                    ),
                    CoordinatorAction::TakeChainReference => recovers_with(
                        action,
                        FinishCode::CheckpointAdoptionReferenceInvalid,
                        false,
                    ),
                    CoordinatorAction::ResumeGuard => recovers_with(
                        action,
                        FinishCode::CheckpointAdoptionLimitsInvalid,
                        false,
                    ),
                    CoordinatorAction::ConsumeCheckpoint => if asked(run, events, index - 1)
                        is PlanAdoptedContinuation {
                        recovers_with(action, FinishCode::CheckpointConsumptionFailed, false)
                    } else {
                        recovers_with(
                            action,
                            FinishCode::ApplicationToolCheckpointConsumptionFailed,
                            true,
                        )
                    },
                    CoordinatorAction::CallProvider => recovers_with(
                        action,
                        FinishCode::ProviderTurnUncertain,
                        false,
                    ),
                    CoordinatorAction::AwaitProvider => recovers_with(
                        action,
                        FinishCode::ProviderTurnUncertain,
                        false,
                    ),
                    CoordinatorAction::CheckpointTurn => recovers_with(
                        action,
                        FinishCode::ProviderTurnCheckpointUncertain,
                        true,
                    ),
                    CoordinatorAction::PersistOutput => recovers_with(
                        action,
                        FinishCode::ProviderOutputUncertain,
                        true,
                    ),
                    CoordinatorAction::ExecuteTool { .. } => recovers_with(
                        action,
                        FinishCode::ApplicationToolUncertain,
                        true,
                    ),
                    CoordinatorAction::BuildContinuation => recovers_with(
                        action,
                        FinishCode::ApplicationToolBatchInvalid,
                        true,
                    ),
                    CoordinatorAction::CheckpointBatch => recovers_with(
                        action,
                        FinishCode::ApplicationToolBatchCheckpointUncertain,
                        true,
                    ),
                    _ => false,
                },
                _ => true,
            }
        }),
{
    lemma_waits(run, events, index);
    lemma_recalls(run, events, index);
    lemma_prefix_fits(run, events, index);
}

/// Every action can be reported on: its success and its failure are taken, and
/// nothing that reports on another action is. What the loop guard answers has
/// no failure, and a run that has returned takes no event.
#[verifier::rlimit(60)]
#[verifier::spinoff_prover]
pub proof fn actions_take_their_own_reports(
    run: AiReadOnlyAgentCoordinator,
    events: Seq<CoordinatorEvent>,
    event: CoordinatorEvent,
)
    requires
        begins(run),
        events_fit(run, events),
    ensures
        event_fits(run_after(run, events).phase, event) == match asked(
            run,
            events,
            events.len() as int,
        ) {
            CoordinatorAction::Start => event is Started || event is Failed,
            CoordinatorAction::AdoptToolBatch => event is Adopted || event is Failed,
            CoordinatorAction::TakeChainReference => event is Referenced || event is Failed,
            CoordinatorAction::ResumeGuard => event is Resumed || event is Failed,
            CoordinatorAction::PlanAdoptedContinuation => event is Planned || event is Failed,
            CoordinatorAction::PlanInitial => event is Planned || event is Failed,
            CoordinatorAction::PlanContinuation => event is Planned || event is Failed,
            CoordinatorAction::ConsumeCheckpoint => event is Consumed || event is Failed,
            CoordinatorAction::CallProvider => event is ProviderReturned || event is HeartbeatDue
                || event is Failed,
            CoordinatorAction::AwaitProvider => event is ProviderReturned || event is HeartbeatDue
                || event is Failed,
            CoordinatorAction::RenewLease => event is Heartbeated || event is Failed,
            CoordinatorAction::ObserveTurn => event is TurnObserved || event is TurnRefused,
            CoordinatorAction::CheckpointTurn => event is TurnCheckpointed || event is Failed,
            CoordinatorAction::PersistOutput => event is OutputPersisted || event is Failed,
            CoordinatorAction::ExecuteTool { .. } => event is ToolExecuted || event
                is ToolContextInvalid || event is Failed,
            CoordinatorAction::ObserveTool => event is ToolObserved || event is ToolRefused,
            CoordinatorAction::BuildContinuation => event is ContinuationBuilt || event is Failed,
            CoordinatorAction::CheckpointBatch => event is BatchCheckpointed || event is Failed,
            CoordinatorAction::Finish { .. } => event is Finished || event is Failed,
            CoordinatorAction::Return { .. } => false,
            CoordinatorAction::Propagate => false,
        },
{
    lemma_waits(run, events, events.len() as int);
    assert(events.take(events.len() as int) =~= events);
}

/// A provider is called in one of three places: right after the initial plan of
/// an attempt without a checkpoint; after a batch was adopted, referenced and
/// resumed, its continuation planned and its checkpoint consumed; or after a
/// batch was checkpointed, its continuation planned and its checkpoint
/// consumed.
pub proof fn providers_are_called_in_three_places(
    run: AiReadOnlyAgentCoordinator,
    events: Seq<CoordinatorEvent>,
    index: int,
)
    requires
        run.phase is Starting,
        events_fit(run, events),
        0 <= index < events.len(),
        action_at(run, events, index) is CallProvider,
    ensures
        ({
            ||| {
                &&& index == 1
                &&& events[0] == (CoordinatorEvent::Started { has_checkpoint: false })
                &&& events[1] is Planned
                &&& !events[1]->Planned_is_continuation
            }
            ||| {
                &&& index == 5
                &&& events[0] == (CoordinatorEvent::Started { has_checkpoint: true })
                &&& events[1] == (CoordinatorEvent::Adopted { present: true })
                &&& events[2] is Referenced
                &&& events[3] is Resumed
                &&& events[4] is Planned
                &&& events[4]->Planned_is_continuation
                &&& events[5] is Consumed
            }
            ||| {
                &&& index >= 2
                &&& events[index - 2] == (CoordinatorEvent::BatchCheckpointed {
                    has_checkpoint: true,
                })
                &&& events[index - 1] is Planned
                &&& events[index - 1]->Planned_is_continuation
                &&& events[index] is Consumed
            }
        }),
{
    every_provider_call_is_prepared(run, events, index);
}

} // verus!
