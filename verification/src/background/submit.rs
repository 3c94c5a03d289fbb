//! The order of work in one background submission.
//!
//! The submission is a state machine. The host performs one action at a time
//! and reports how it ended; the machine answers with the next action. Nothing
//! reaches the provider before the exact binding is durable, authority was
//! checked again, and the budget is held as uncertain; nothing is retried once
//! it has.

use crate::access::AiRunLease;
use crate::background::state::BackgroundReason;
use crate::background::submission::{BackgroundCallPlan, plan_submittable, validate_plan};
use crate::error::{AiError, ErrorModel, refusal};
use vstd::prelude::*;

verus! {

/// Where a submission stands: which action it is waiting for.
#[derive(Debug, PartialEq, Eq)]
pub enum SubmitPhase {
    ResolvingPrincipal,
    CheckingAccess,
    Reserving,
    AuthorizingBudget,
    AuthorizingEgress,
    RecordingEgress,
    ProvingEgress,
    BuildingContext,
    ResolvingCurrent,
    CheckingCurrent,
    Binding,
    Preparing,
    /// Resolving the principal again, with the binding durable.
    ResolvingPrepared,
    /// Checking access again, with the binding durable.
    CheckingPrepared,
    MarkingUncertain,
    Submitting,
    Accepting,
    /// Giving back a reservation that was never used.
    Releasing { error: AiError },
    /// Giving back a reservation whose uncertainty was not recorded.
    ReleasingPrepared { error: AiError },
    /// Closing a prepared binding that never reached the provider.
    ClosingPrepared { error: AiError, release: Option<AiError> },
    /// Closing a binding whose provider call has an unknown outcome.
    ClosingSubmitted,
    /// Closing a binding whose acknowledgement was not recorded.
    ClosingAcknowledged { error: AiError },
    Finished,
}

/// What the host does next.
#[derive(Debug, PartialEq, Eq)]
pub enum SubmitAction {
    /// Resolve the lease's principal.
    ResolvePrincipal,
    /// Check write access to the scope and the session.
    CheckAccess,
    /// Reserve the plan's budget.
    ReserveBudget,
    /// Authorize the provider call under the reservation.
    AuthorizeBudget,
    /// Decide the plan's transfer.
    AuthorizeEgress,
    /// Record the decision.
    RecordEgress,
    /// Turn the decision into a proof for the transfer.
    ProveEgress,
    /// Build the provider request context.
    BuildContext,
    /// Resolve the principal again.
    ResolveCurrent,
    /// Check access of the principal that was resolved again.
    CheckCurrent,
    /// Hash the request and derive the submission's identity.
    BindRequest,
    /// Insert the prepared binding and renew the lease.
    Prepare,
    /// Mark the reservation uncertain.
    MarkUncertain,
    /// Call the provider, renewing the lease meanwhile.
    SubmitToProvider,
    /// Keep waiting for the provider.
    AwaitProvider,
    /// Bind the acknowledgement.
    Accept,
    /// Release the reservation, acting as the principal that was resolved
    /// again where `current` holds.
    ReleaseBudget { current: bool },
    /// Close the binding for recovery.
    CloseAmbiguity(BackgroundReason),
    /// The submission was accepted.
    Done,
    /// The submission failed.
    Fail(AiError),
}

/// How the last action ended.
#[derive(Debug, PartialEq, Eq)]
pub enum SubmitEvent {
    Succeeded,
    Failed(AiError),
    /// The lease was renewed while the provider is being called.
    LeaseRenewed,
}

/// Whether the event can end the action that the phase waits for.
pub open spec fn submit_accepts(phase: SubmitPhase, event: SubmitEvent) -> bool {
    &&& !(phase is Finished)
    &&& event is LeaseRenewed ==> phase is Submitting
}

/// The failure of an action before the provider boundary, with a reservation
/// to give back.
pub open spec fn release_after(error: AiError, current: bool) -> (SubmitPhase, SubmitAction) {
    (SubmitPhase::Releasing { error }, SubmitAction::ReleaseBudget { current })
}

/// The next phase and action.
pub open spec fn submit_transition(phase: SubmitPhase, event: SubmitEvent) -> (
    SubmitPhase,
    SubmitAction,
) {
    match event {
        SubmitEvent::Succeeded => match phase {
            SubmitPhase::ResolvingPrincipal => (
                SubmitPhase::CheckingAccess,
                SubmitAction::CheckAccess,
            ),
            SubmitPhase::CheckingAccess => (SubmitPhase::Reserving, SubmitAction::ReserveBudget),
            SubmitPhase::Reserving => (
                SubmitPhase::AuthorizingBudget,
                SubmitAction::AuthorizeBudget,
            ),
            SubmitPhase::AuthorizingBudget => (
                SubmitPhase::AuthorizingEgress,
                SubmitAction::AuthorizeEgress,
            ),
            SubmitPhase::AuthorizingEgress => (
                SubmitPhase::RecordingEgress,
                SubmitAction::RecordEgress,
            ),
            SubmitPhase::RecordingEgress => (SubmitPhase::ProvingEgress, SubmitAction::ProveEgress),
            SubmitPhase::ProvingEgress => (
                SubmitPhase::BuildingContext,
                SubmitAction::BuildContext,
            ),
            SubmitPhase::BuildingContext => (
                SubmitPhase::ResolvingCurrent,
                SubmitAction::ResolveCurrent,
            ),
            SubmitPhase::ResolvingCurrent => (
                SubmitPhase::CheckingCurrent,
                SubmitAction::CheckCurrent,
            ),
            SubmitPhase::CheckingCurrent => (SubmitPhase::Binding, SubmitAction::BindRequest),
            SubmitPhase::Binding => (SubmitPhase::Preparing, SubmitAction::Prepare),
            SubmitPhase::Preparing => (
                SubmitPhase::ResolvingPrepared,
                SubmitAction::ResolveCurrent,
            ),
            SubmitPhase::ResolvingPrepared => (
                SubmitPhase::CheckingPrepared,
                SubmitAction::CheckCurrent,
            ),
            SubmitPhase::CheckingPrepared => (
                SubmitPhase::MarkingUncertain,
                SubmitAction::MarkUncertain,
            ),
            SubmitPhase::MarkingUncertain => (
                SubmitPhase::Submitting,
                SubmitAction::SubmitToProvider,
            ),
            SubmitPhase::Submitting => (SubmitPhase::Accepting, SubmitAction::Accept),
            SubmitPhase::Accepting => (SubmitPhase::Finished, SubmitAction::Done),
            SubmitPhase::Releasing { error } => (SubmitPhase::Finished, SubmitAction::Fail(error)),
            SubmitPhase::ReleasingPrepared { error } => (
                SubmitPhase::ClosingPrepared { error, release: None },
                SubmitAction::CloseAmbiguity(BackgroundReason::BudgetUncertaintyNotPersisted),
            ),
            SubmitPhase::ClosingPrepared { error, release } => (
                SubmitPhase::Finished,
                match release {
                    Some(failure) => SubmitAction::Fail(failure),
                    None => SubmitAction::Fail(error),
                },
            ),
            SubmitPhase::ClosingSubmitted => (
                SubmitPhase::Finished,
                SubmitAction::Fail(AiError::ProviderFailed),
            ),
            SubmitPhase::ClosingAcknowledged { error } => (
                SubmitPhase::Finished,
                SubmitAction::Fail(error),
            ),
            SubmitPhase::Finished => (SubmitPhase::Finished, SubmitAction::Done),
        },
        SubmitEvent::Failed(error) => match phase {
            SubmitPhase::ResolvingPrincipal
            | SubmitPhase::CheckingAccess
            | SubmitPhase::Reserving
            | SubmitPhase::Binding
            | SubmitPhase::Finished => (SubmitPhase::Finished, SubmitAction::Fail(error)),
            SubmitPhase::AuthorizingBudget => release_after(AiError::BudgetDenied, false),
            SubmitPhase::AuthorizingEgress
            | SubmitPhase::RecordingEgress
            | SubmitPhase::ProvingEgress
            | SubmitPhase::BuildingContext
            | SubmitPhase::ResolvingCurrent => release_after(error, false),
            SubmitPhase::CheckingCurrent | SubmitPhase::Preparing => release_after(error, true),
            SubmitPhase::ResolvingPrepared
            | SubmitPhase::CheckingPrepared
            | SubmitPhase::MarkingUncertain => (
                SubmitPhase::ReleasingPrepared { error },
                SubmitAction::ReleaseBudget { current: true },
            ),
            SubmitPhase::Submitting => (
                SubmitPhase::ClosingSubmitted,
                SubmitAction::CloseAmbiguity(BackgroundReason::SubmissionOutcomeUncertain),
            ),
            SubmitPhase::Accepting => (
                SubmitPhase::ClosingAcknowledged { error },
                SubmitAction::CloseAmbiguity(BackgroundReason::AcknowledgementNotPersisted),
            ),
            SubmitPhase::ReleasingPrepared { error: first } => (
                SubmitPhase::ClosingPrepared { error: first, release: Some(error) },
                SubmitAction::CloseAmbiguity(BackgroundReason::BudgetUncertaintyNotPersisted),
            ),
            SubmitPhase::Releasing { .. }
            | SubmitPhase::ClosingPrepared { .. }
            | SubmitPhase::ClosingSubmitted
            | SubmitPhase::ClosingAcknowledged { .. } => (
                SubmitPhase::Finished,
                SubmitAction::Fail(error),
            ),
        },
        SubmitEvent::LeaseRenewed => (phase, SubmitAction::AwaitProvider),
    }
}

/// One submission in progress.
#[derive(Debug, PartialEq, Eq)]
pub struct BackgroundSubmit {
    phase: SubmitPhase,
}

impl BackgroundSubmit {
    /// Where the submission stands.
    pub closed spec fn phase(self) -> SubmitPhase {
        self.phase
    }

    /// Starts the submission of a plan under its lease. `ready` tells whether
    /// the runtime accepts new work.
    pub fn begin(
        lease: &AiRunLease,
        plan: &BackgroundCallPlan,
        retention: &str,
        ready: bool,
    ) -> (result: Result<(BackgroundSubmit, SubmitAction), AiError>)
        ensures
            refusal(result) == if !plan_submittable(*lease, *plan, retention@) {
                Some(ErrorModel::Conflict)
            } else if !ready {
                Some(ErrorModel::RuntimeNotReady)
            } else {
                None
            },
            result matches Ok((submit, action)) ==> submit.phase() is ResolvingPrincipal
                && action is ResolvePrincipal,
    {
        match validate_plan(lease, plan, retention) {
            Ok(()) => {},
            Err(error) => return Err(error),
        }
        if !ready {
            return Err(AiError::RuntimeNotReady);
        }
        Ok(
            (
                BackgroundSubmit { phase: SubmitPhase::ResolvingPrincipal },
                SubmitAction::ResolvePrincipal,
            ),
        )
    }

    /// Whether the event can end the action that the submission waits for.
    pub fn accepts(&self, event: &SubmitEvent) -> (result: bool)
        ensures
            result == submit_accepts(self.phase(), *event),
    {
        match (&self.phase, event) {
            (SubmitPhase::Finished, _) => false,
            (SubmitPhase::Submitting, _) => true,
            (_, SubmitEvent::LeaseRenewed) => false,
            _ => true,
        }
    }

    /// Answers how the last action ended with the next action.
    pub fn step(self, event: SubmitEvent) -> (next: (BackgroundSubmit, SubmitAction))
        requires
            submit_accepts(self.phase(), event),
        ensures
            (next.0.phase(), next.1) == submit_transition(self.phase(), event),
    {
        let (phase, action) = match event {
            SubmitEvent::Succeeded => after_success(self.phase),
            SubmitEvent::Failed(error) => after_failure(self.phase, error),
            SubmitEvent::LeaseRenewed => (self.phase, SubmitAction::AwaitProvider),
        };
        (BackgroundSubmit { phase }, action)
    }
}

fn after_success(phase: SubmitPhase) -> (next: (SubmitPhase, SubmitAction))
    ensures
        next == submit_transition(phase, SubmitEvent::Succeeded),
{
    match phase {
        SubmitPhase::ResolvingPrincipal => (SubmitPhase::CheckingAccess, SubmitAction::CheckAccess),
        SubmitPhase::CheckingAccess => (SubmitPhase::Reserving, SubmitAction::ReserveBudget),
        SubmitPhase::Reserving => (SubmitPhase::AuthorizingBudget, SubmitAction::AuthorizeBudget),
        SubmitPhase::AuthorizingBudget => (
            SubmitPhase::AuthorizingEgress,
            SubmitAction::AuthorizeEgress,
        ),
        SubmitPhase::AuthorizingEgress => (SubmitPhase::RecordingEgress, SubmitAction::RecordEgress),
        SubmitPhase::RecordingEgress => (SubmitPhase::ProvingEgress, SubmitAction::ProveEgress),
        SubmitPhase::ProvingEgress => (SubmitPhase::BuildingContext, SubmitAction::BuildContext),
        SubmitPhase::BuildingContext => (SubmitPhase::ResolvingCurrent, SubmitAction::ResolveCurrent),
        SubmitPhase::ResolvingCurrent => (SubmitPhase::CheckingCurrent, SubmitAction::CheckCurrent),
        SubmitPhase::CheckingCurrent => (SubmitPhase::Binding, SubmitAction::BindRequest),
        SubmitPhase::Binding => (SubmitPhase::Preparing, SubmitAction::Prepare),
        SubmitPhase::Preparing => (SubmitPhase::ResolvingPrepared, SubmitAction::ResolveCurrent),
        SubmitPhase::ResolvingPrepared => (
            SubmitPhase::CheckingPrepared,
            SubmitAction::CheckCurrent,
        ),
        SubmitPhase::CheckingPrepared => (
            SubmitPhase::MarkingUncertain,
            SubmitAction::MarkUncertain,
        ),
        SubmitPhase::MarkingUncertain => (SubmitPhase::Submitting, SubmitAction::SubmitToProvider),
        SubmitPhase::Submitting => (SubmitPhase::Accepting, SubmitAction::Accept),
        SubmitPhase::Accepting => (SubmitPhase::Finished, SubmitAction::Done),
        SubmitPhase::Releasing { error } => (SubmitPhase::Finished, SubmitAction::Fail(error)),
        SubmitPhase::ReleasingPrepared { error } => (
            SubmitPhase::ClosingPrepared { error, release: None },
            SubmitAction::CloseAmbiguity(BackgroundReason::BudgetUncertaintyNotPersisted),
        ),
        SubmitPhase::ClosingPrepared { error, release } => (
            SubmitPhase::Finished,
            match release {
                Some(failure) => SubmitAction::Fail(failure),
                None => SubmitAction::Fail(error),
            },
        ),
        SubmitPhase::ClosingSubmitted => (
            SubmitPhase::Finished,
            SubmitAction::Fail(AiError::ProviderFailed),
        ),
        SubmitPhase::ClosingAcknowledged { error } => (
            SubmitPhase::Finished,
            SubmitAction::Fail(error),
        ),
        SubmitPhase::Finished => (SubmitPhase::Finished, SubmitAction::Done),
    }
}

fn after_failure(phase: SubmitPhase, error: AiError) -> (next: (SubmitPhase, SubmitAction))
    ensures
        next == submit_transition(phase, SubmitEvent::Failed(error)),
{
    match phase {
        SubmitPhase::ResolvingPrincipal
        | SubmitPhase::CheckingAccess
        | SubmitPhase::Reserving
        | SubmitPhase::Binding
        | SubmitPhase::Finished => (SubmitPhase::Finished, SubmitAction::Fail(error)),
        SubmitPhase::AuthorizingBudget => (
            SubmitPhase::Releasing { error: AiError::BudgetDenied },
            SubmitAction::ReleaseBudget { current: false },
        ),
        SubmitPhase::AuthorizingEgress
        | SubmitPhase::RecordingEgress
        | SubmitPhase::ProvingEgress
        | SubmitPhase::BuildingContext
        | SubmitPhase::ResolvingCurrent => (
            SubmitPhase::Releasing { error },
            SubmitAction::ReleaseBudget { current: false },
        ),
        SubmitPhase::CheckingCurrent | SubmitPhase::Preparing => (
            SubmitPhase::Releasing { error },
            SubmitAction::ReleaseBudget { current: true },
        ),
        SubmitPhase::ResolvingPrepared
        | SubmitPhase::CheckingPrepared
        | SubmitPhase::MarkingUncertain => (
            SubmitPhase::ReleasingPrepared { error },
            SubmitAction::ReleaseBudget { current: true },
        ),
        SubmitPhase::Submitting => (
            SubmitPhase::ClosingSubmitted,
            SubmitAction::CloseAmbiguity(BackgroundReason::SubmissionOutcomeUncertain),
        ),
        SubmitPhase::Accepting => (
            SubmitPhase::ClosingAcknowledged { error },
            SubmitAction::CloseAmbiguity(BackgroundReason::AcknowledgementNotPersisted),
        ),
        SubmitPhase::ReleasingPrepared { error: first } => (
            SubmitPhase::ClosingPrepared { error: first, release: Some(error) },
            SubmitAction::CloseAmbiguity(BackgroundReason::BudgetUncertaintyNotPersisted),
        ),
        SubmitPhase::Releasing { .. }
        | SubmitPhase::ClosingPrepared { .. }
        | SubmitPhase::ClosingSubmitted
        | SubmitPhase::ClosingAcknowledged { .. } => (
            SubmitPhase::Finished,
            SubmitAction::Fail(error),
        ),
    }
}

/// A submission as it ran: `phases[i]` was left by `events[i]` with
/// `actions[i]`.
pub struct SubmitTrace {
    pub phases: Seq<SubmitPhase>,
    pub events: Seq<SubmitEvent>,
    pub actions: Seq<SubmitAction>,
}

impl SubmitTrace {
    /// Traces from the start of a submission, every step of which the machine
    /// took.
    pub open spec fn wf(self) -> bool {
        &&& self.phases.len() == self.events.len() + 1
        &&& self.actions.len() == self.events.len()
        &&& self.phases[0] is ResolvingPrincipal
        &&& forall|i: int| 0 <= i < self.events.len() ==> #[trigger] self.steps_at(i)
    }

    /// Whether the machine took the step at `i`.
    pub open spec fn steps_at(self, i: int) -> bool {
        &&& submit_accepts(self.phases[i], self.events[i])
        &&& (self.phases[i + 1], self.actions[i]) == submit_transition(
            self.phases[i],
            self.events[i],
        )
    }
}

/// How far a submission has come.
pub open spec fn progress(phase: SubmitPhase) -> nat {
    match phase {
        SubmitPhase::ResolvingPrincipal => 0,
        SubmitPhase::CheckingAccess => 1,
        SubmitPhase::Reserving => 2,
        SubmitPhase::AuthorizingBudget => 3,
        SubmitPhase::AuthorizingEgress => 4,
        SubmitPhase::RecordingEgress => 5,
        SubmitPhase::ProvingEgress => 6,
        SubmitPhase::BuildingContext => 7,
        SubmitPhase::ResolvingCurrent => 8,
        SubmitPhase::CheckingCurrent => 9,
        SubmitPhase::Binding => 10,
        SubmitPhase::Preparing => 11,
        SubmitPhase::ResolvingPrepared => 12,
        SubmitPhase::CheckingPrepared => 13,
        SubmitPhase::MarkingUncertain => 14,
        SubmitPhase::Releasing { .. } => 15,
        SubmitPhase::ReleasingPrepared { .. } => 16,
        SubmitPhase::ClosingPrepared { .. } => 17,
        SubmitPhase::Submitting => 20,
        SubmitPhase::Accepting => 21,
        SubmitPhase::ClosingSubmitted => 22,
        SubmitPhase::ClosingAcknowledged { .. } => 23,
        SubmitPhase::Finished => 24,
    }
}

proof fn lemma_progress(trace: SubmitTrace, from: int, to: int)
    requires
        trace.wf(),
        0 <= from <= to < trace.phases.len(),
    ensures
        progress(trace.phases[from]) <= progress(trace.phases[to]),
    decreases to - from,
{
    if from < to {
        lemma_progress(trace, from, to - 1);
        assert(trace.steps_at(to - 1));
    }
}

/// The provider is called at most once, and a reservation is never released
/// once it has been called.
pub proof fn provider_is_called_once(trace: SubmitTrace, call: int, later: int)
    requires
        trace.wf(),
        0 <= call < later < trace.actions.len(),
        trace.actions[call] is SubmitToProvider,
    ensures
        !(trace.actions[later] is SubmitToProvider),
        !(trace.actions[later] is ReleaseBudget),
{
    assert(trace.steps_at(call));
    assert(trace.steps_at(later));
    lemma_progress(trace, call + 1, later);
}

/// The provider is called only after the exact binding was made durable, the
/// principal was resolved again and still had access, and the reservation was
/// marked uncertain, in that order and with nothing in between.
pub proof fn provider_call_follows_durable_binding(trace: SubmitTrace, call: int)
    requires
        trace.wf(),
        0 <= call < trace.actions.len(),
        trace.actions[call] is SubmitToProvider,
    ensures
        call >= 4,
        trace.actions[call - 4] is Prepare,
        trace.events[call - 3] is Succeeded,
        trace.actions[call - 3] is ResolveCurrent,
        trace.events[call - 2] is Succeeded,
        trace.actions[call - 2] is CheckCurrent,
        trace.events[call - 1] is Succeeded,
        trace.actions[call - 1] is MarkUncertain,
        trace.events[call] is Succeeded,
{
    assert(trace.steps_at(call));
    assert(trace.phases[call] is MarkingUncertain);
    assert(trace.steps_at(call - 1));
    assert(trace.phases[call - 1] is CheckingPrepared);
    assert(trace.steps_at(call - 2));
    assert(trace.phases[call - 2] is ResolvingPrepared);
    assert(trace.steps_at(call - 3));
    assert(trace.phases[call - 3] is Preparing);
    assert(trace.steps_at(call - 4));
}

/// A failure of the provider call, of the renewal of its lease, or of binding
/// its acknowledgement closes the submission for recovery and never returns
/// success.
pub proof fn failure_after_call_requires_recovery(phase: SubmitPhase, error: AiError)
    requires
        phase is Submitting || phase is Accepting,
    ensures
        submit_transition(phase, SubmitEvent::Failed(error)).1 is CloseAmbiguity,
{
}

/// A failure between the reservation and the provider call gives the
/// reservation back, except that a request which cannot be encoded leaves the
/// reservation to expire.
pub proof fn unused_reservation_is_released(phase: SubmitPhase, error: AiError)
    requires
        progress(SubmitPhase::Reserving) < progress(phase) <= progress(
            SubmitPhase::MarkingUncertain,
        ),
        !(phase is Binding),
    ensures
        submit_transition(phase, SubmitEvent::Failed(error)).1 is ReleaseBudget,
{
}

/// A failure between the durable binding and the provider call gives the
/// reservation back and then closes the binding for recovery, whether or not
/// the reservation could be given back.
pub proof fn unsent_binding_is_closed(phase: SubmitPhase, error: AiError, released: SubmitEvent)
    requires
        phase is ResolvingPrepared || phase is CheckingPrepared || phase is MarkingUncertain,
        !(released is LeaseRenewed),
    ensures
        ({
            let (after, action) = submit_transition(phase, SubmitEvent::Failed(error));
            &&& action is ReleaseBudget
            &&& submit_transition(after, released).1 == SubmitAction::CloseAmbiguity(
                BackgroundReason::BudgetUncertaintyNotPersisted,
            )
        }),
{
}

/// A submission succeeds only by binding an acknowledgement of the provider.
pub proof fn success_follows_acceptance(trace: SubmitTrace, end: int)
    requires
        trace.wf(),
        0 <= end < trace.actions.len(),
        trace.actions[end] is Done,
    ensures
        trace.phases[end] is Accepting,
        trace.events[end] is Succeeded,
{
    assert(trace.steps_at(end));
}

/// A submission whose actions all succeed takes them in this order, and ends.
pub proof fn successful_submissions_take_every_step(trace: SubmitTrace)
    requires
        trace.wf(),
        trace.events.len() >= 17,
        forall|i: int| 0 <= i < 17 ==> #[trigger] trace.events[i] is Succeeded,
    ensures
        trace.actions[0] is CheckAccess,
        trace.actions[1] is ReserveBudget,
        trace.actions[2] is AuthorizeBudget,
        trace.actions[3] is AuthorizeEgress,
        trace.actions[4] is RecordEgress,
        trace.actions[5] is ProveEgress,
        trace.actions[6] is BuildContext,
        trace.actions[7] is ResolveCurrent,
        trace.actions[8] is CheckCurrent,
        trace.actions[9] is BindRequest,
        trace.actions[10] is Prepare,
        trace.actions[11] is ResolveCurrent,
        trace.actions[12] is CheckCurrent,
        trace.actions[13] is MarkUncertain,
        trace.actions[14] is SubmitToProvider,
        trace.actions[15] is Accept,
        trace.actions[16] is Done,
        trace.events.len() == 17,
{
    assert(trace.steps_at(0) && trace.steps_at(1) && trace.steps_at(2));
    assert(trace.steps_at(3) && trace.steps_at(4) && trace.steps_at(5));
    assert(trace.steps_at(6) && trace.steps_at(7) && trace.steps_at(8));
    assert(trace.steps_at(9) && trace.steps_at(10) && trace.steps_at(11));
    assert(trace.steps_at(12) && trace.steps_at(13) && trace.steps_at(14));
    assert(trace.steps_at(15) && trace.steps_at(16));
    if trace.events.len() > 17 {
        assert(trace.steps_at(17));
    }
}

/// A submission that fails before its budget was reserved, or because its
/// request cannot be encoded, fails with just that error.
pub proof fn early_failures_end_at_once(phase: SubmitPhase, error: AiError)
    ensures
        phase is ResolvingPrincipal || phase is CheckingAccess || phase is Reserving || phase
            is Binding ==> submit_transition(phase, SubmitEvent::Failed(error)) == (
            SubmitPhase::Finished,
            SubmitAction::Fail(error),
        ),
{
}

/// A submission that fails with its budget reserved and nothing durable gives
/// the budget back, as the principal that was resolved again where there is
/// one, and then fails: with a budget denial where the budget was not
/// authorized, otherwise with its own error, or with the error of giving back.
pub proof fn failures_give_back_and_report(phase: SubmitPhase, error: AiError, second: AiError)
    requires
        phase is AuthorizingBudget || phase is AuthorizingEgress || phase is RecordingEgress || phase
            is ProvingEgress || phase is BuildingContext || phase is ResolvingCurrent || phase
            is CheckingCurrent || phase is Preparing,
    ensures
        ({
            let (after, action) = submit_transition(phase, SubmitEvent::Failed(error));
            &&& action == SubmitAction::ReleaseBudget {
                current: phase is CheckingCurrent || phase is Preparing,
            }
            &&& submit_transition(after, SubmitEvent::Succeeded) == (
                SubmitPhase::Finished,
                SubmitAction::Fail(
                    if phase is AuthorizingBudget {
                        AiError::BudgetDenied
                    } else {
                        error
                    },
                ),
            )
            &&& submit_transition(after, SubmitEvent::Failed(second)) == (
                SubmitPhase::Finished,
                SubmitAction::Fail(second),
            )
        }),
{
}

/// A submission that fails with its binding durable and the provider not yet
/// called gives its budget back, closes the binding because the uncertainty was
/// not recorded, and fails with its own error, or with the last one that
/// stopped it from cleaning up.
pub proof fn durable_bindings_are_closed_and_reported(
    phase: SubmitPhase,
    error: AiError,
    second: AiError,
    third: AiError,
)
    requires
        phase is ResolvingPrepared || phase is CheckingPrepared || phase is MarkingUncertain,
    ensures
        ({
            let close = SubmitAction::CloseAmbiguity(
                BackgroundReason::BudgetUncertaintyNotPersisted,
            );
            let (after, action) = submit_transition(phase, SubmitEvent::Failed(error));
            let released = submit_transition(after, SubmitEvent::Succeeded);
            let kept = submit_transition(after, SubmitEvent::Failed(second));
            &&& action == SubmitAction::ReleaseBudget { current: true }
            &&& released.1 == close && kept.1 == close
            &&& submit_transition(released.0, SubmitEvent::Succeeded).1 == SubmitAction::Fail(error)
            &&& submit_transition(kept.0, SubmitEvent::Succeeded).1 == SubmitAction::Fail(second)
            &&& submit_transition(released.0, SubmitEvent::Failed(third)).1 == SubmitAction::Fail(
                third,
            )
            &&& submit_transition(kept.0, SubmitEvent::Failed(third)).1 == SubmitAction::Fail(third)
        }),
{
}

/// A submission whose provider call failed is closed as uncertain and fails as
/// the provider's; one whose acknowledgement was not bound is closed as not
/// persisted and fails with its own error.
pub proof fn failed_calls_are_closed_for_what_is_unknown(error: AiError, second: AiError)
    ensures
        ({
            let (after, action) = submit_transition(
                SubmitPhase::Submitting,
                SubmitEvent::Failed(error),
            );
            &&& action == SubmitAction::CloseAmbiguity(BackgroundReason::SubmissionOutcomeUncertain)
            &&& submit_transition(after, SubmitEvent::Succeeded).1 == SubmitAction::Fail(
                AiError::ProviderFailed,
            )
            &&& submit_transition(after, SubmitEvent::Failed(second)).1 == SubmitAction::Fail(
                second,
            )
        }),
        ({
            let (after, action) = submit_transition(
                SubmitPhase::Accepting,
                SubmitEvent::Failed(error),
            );
            &&& action == SubmitAction::CloseAmbiguity(
                BackgroundReason::AcknowledgementNotPersisted,
            )
            &&& submit_transition(after, SubmitEvent::Succeeded).1 == SubmitAction::Fail(error)
            &&& submit_transition(after, SubmitEvent::Failed(second)).1 == SubmitAction::Fail(
                second,
            )
        }),
{
}

/// A renewed lease changes nothing: the provider is awaited on, and a lease is
/// renewed only meanwhile. A finished submission takes no more reports.
pub proof fn renewals_await_the_provider(phase: SubmitPhase, event: SubmitEvent)
    ensures
        submit_transition(phase, SubmitEvent::LeaseRenewed) == (phase, SubmitAction::AwaitProvider),
        submit_accepts(phase, SubmitEvent::LeaseRenewed) <==> phase is Submitting,
        !(event is LeaseRenewed) ==> (submit_accepts(phase, event) <==> !(phase is Finished)),
{
}

} // verus!
