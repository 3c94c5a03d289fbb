//! The order of one adoption.
//!
//! An adoption is a session over one checked checkpoint. The host takes the
//! tools one by one: each is bound, its rows are admitted, then its opened
//! contents, then its egress decision. An error ends the session. A batch can
//! be taken only once every tool of the checkpoint has been admitted.

use crate::access::AiRunLease;
use crate::authority::{ContentAuthority, authority_unchanged, require_unchanged_authority};
use crate::budget::rows::AiBudgetReservationRecord;
use crate::checkpoints::adoption::{
    AdoptionFence, AdoptionLedger, AiRunCheckpointRecord, AiRunStepRecord, AiToolCallRecord,
    CoordinatorCheckpointPayload, adoption_fence, budget_settles, check_adoptable,
    check_adoption_budget, check_checkpoint_hash, check_continuation, check_current_call,
    check_opened_tool, check_payload, check_provider_snapshot, check_transfer,
    checkpoint_adoptable, continuation_chains, current_call_bound, has_id, has_text,
    historical_call_bound, payload_admitted, provider_snapshot_bound, tool_consistent,
    tool_continuable, transfer_allowed, turn_budget, turn_budget_fits,
};
use crate::checkpoints::continuation::{
    AiAgentContinuation, ModelInputBlock, RoutedTransfer, StatelessTool, transfers_some_tool,
};
use crate::checkpoints::persistence::require_unchanged_rules;
use crate::coordinator::AiAdoptedReadOnlyToolBatch;
use crate::digest::{Uuid, parsed_uuid};
use crate::egress::{AiEgressEventRecord, AiEgressManifest};
use crate::error::{AiError, ErrorModel, refusal};
use crate::json::{canonical_json_bytes, json_equal};
use crate::principal::{AiScope, same_scope};
use crate::text::text_option;
use vstd::prelude::*;

verus! {

/// Everything that one tool was admitted on.
pub struct ToolEvidence {
    pub call: AiToolCallRecord,
    pub step: AiRunStepRecord,
    pub budget: Option<AiBudgetReservationRecord>,
    pub arguments: Seq<u8>,
    pub output: Seq<u8>,
    pub event: AiEgressEventRecord,
}

/// How far the tool at hand has come.
#[derive(Clone, Copy, Debug, PartialEq, Eq, Structural)]
pub enum AdoptionStage {
    /// No tool is at hand.
    Ready,
    /// The tool is bound; its rows are awaited.
    Bound,
    /// The rows are admitted; the opened contents are awaited.
    Rowed,
    /// The contents are admitted; the egress decision is awaited.
    Opened,
}

/// The adoption of one checked checkpoint.
pub struct BatchAdoption {
    checkpoint_id: Uuid,
    attempt_id: Uuid,
    lease: AiRunLease,
    fence: AdoptionFence,
    payload: CoordinatorCheckpointPayload,
    continuation: AiAgentContinuation,
    ledger: AdoptionLedger,
    position: usize,
    stage: AdoptionStage,
    pending: Ghost<ToolEvidence>,
    evidence: Ghost<Seq<ToolEvidence>>,
}

/// Values of [`BatchAdoption`].
pub struct AdoptionModel {
    pub checkpoint_id: Uuid,
    pub attempt_id: Uuid,
    pub lease: AiRunLease,
    pub fence: AdoptionFence,
    pub payload: CoordinatorCheckpointPayload,
    pub continuation: AiAgentContinuation,
    pub ledger: AdoptionLedger,
    /// Tools that have been admitted.
    pub position: nat,
    pub stage: AdoptionStage,
    pub pending: ToolEvidence,
    /// What each admitted tool was admitted on.
    pub evidence: Seq<ToolEvidence>,
}

impl View for BatchAdoption {
    type V = AdoptionModel;

    closed spec fn view(&self) -> AdoptionModel {
        AdoptionModel {
            checkpoint_id: self.checkpoint_id,
            attempt_id: self.attempt_id,
            lease: self.lease,
            fence: self.fence,
            payload: self.payload,
            continuation: self.continuation,
            ledger: self.ledger,
            position: self.position as nat,
            stage: self.stage,
            pending: self.pending@,
            evidence: self.evidence@,
        }
    }
}

/// Tools of the current batch.
pub open spec fn batch_size(model: AdoptionModel) -> nat {
    model.payload.completed_tools@.len()
}

/// Tools of a stateless history before the current batch.
pub open spec fn history_size(model: AdoptionModel) -> nat {
    match model.continuation.stateless_evidence {
        Some(evidence) => (evidence.tools@.len() - evidence.current_tool_count) as nat,
        None => 0,
    }
}

/// All tools that must be admitted: the current batch, then its history.
pub open spec fn total_tools(model: AdoptionModel) -> nat {
    batch_size(model) + history_size(model)
}

/// The historical tool at `index`.
pub open spec fn history_item(model: AdoptionModel, index: int) -> StatelessTool {
    model.continuation.stateless_evidence->0.tools@[index]
}

/// The transfer of the tool at `index`.
pub open spec fn tool_transfer(model: AdoptionModel, index: int) -> RoutedTransfer {
    if index < batch_size(model) {
        model.continuation.transfers@[index]
    } else {
        model.continuation.replay_transfers@[index - batch_size(model)]
    }
}

/// The arguments that the checkpoint recorded for the tool at `index`.
pub open spec fn tool_arguments(model: AdoptionModel, index: int) -> Seq<u8> {
    if index < batch_size(model) {
        model.payload.provider_result.tool_calls@[index].arguments@
    } else {
        history_item(model, index - batch_size(model)).arguments@
    }
}

/// The output that the checkpoint recorded for the tool at `index`.
pub open spec fn tool_output(model: AdoptionModel, index: int) -> Seq<u8> {
    if index < batch_size(model) {
        model.continuation.input@[index]->output@
    } else {
        history_item(model, index - batch_size(model)).output@
    }
}

/// The durable identity of the tool at `index`: the recorded one in the batch,
/// the one that its replayed transfer names in the history.
pub open spec fn tool_identity(model: AdoptionModel, index: int) -> Uuid {
    if index < batch_size(model) {
        model.payload.completed_tools@[index].id
    } else {
        parsed_uuid(tool_transfer(model, index).manifest.sources@[0].reference@)->0
    }
}

/// The provider call that the tool at `index` answered.
pub open spec fn tool_call_id(model: AdoptionModel, index: int) -> Seq<char> {
    if index < batch_size(model) {
        model.payload.completed_tools@[index].provider_call_id@
    } else {
        history_item(model, index - batch_size(model)).call_id@
    }
}

/// The evidence of every tool whose rows are admitted: of the admitted tools,
/// and of the one at hand once its rows are.
pub open spec fn rowed_evidence(model: AdoptionModel) -> Seq<ToolEvidence> {
    if model.stage is Rowed || model.stage is Opened {
        model.evidence.push(model.pending)
    } else {
        model.evidence
    }
}

/// Budgets of the earlier turns, as the first `count` tools give them: every
/// historical turn with the budget of its first tool.
pub open spec fn recorded_budgets(
    model: AdoptionModel,
    evidence: Seq<ToolEvidence>,
    count: nat,
) -> Seq<(i64, Uuid)>
    decreases count,
{
    if count <= batch_size(model) {
        Seq::empty()
    } else {
        let before = recorded_budgets(model, evidence, (count - 1) as nat);
        let turn = history_item(model, count - 1 - batch_size(model)).provider_turn_index;
        if turn_budget(before, turn) is Some {
            before
        } else {
            before.push((turn, evidence[count - 1].call.budget_reservation_id->0))
        }
    }
}

/// Whether the historical tool at `index` was paid from the budget that is
/// recorded for its turn.
pub open spec fn paid_from_turn(model: AdoptionModel, index: int, evidence: ToolEvidence) -> bool {
    let turn = history_item(model, index - batch_size(model)).provider_turn_index;
    evidence.call.budget_reservation_id is Some && turn_budget(model.ledger.turn_budgets@, turn)
        == evidence.call.budget_reservation_id
}

/// Whether the ledger holds exactly what the session has seen: each bound tool
/// with its call, and the budget of each historical turn, which is never the
/// current one.
pub open spec fn ledger_records(model: AdoptionModel) -> bool {
    let rowed = rowed_evidence(model);
    &&& model.ledger.wf()
    &&& model.ledger.durable_ids@.len() == model.position + if model.stage is Ready {
        0int
    } else {
        1
    }
    &&& forall|i: int|
        0 <= i < model.ledger.durable_ids@.len() ==> #[trigger] model.ledger.durable_ids@[i]
            == tool_identity(model, i)
    &&& forall|i: int|
        0 <= i < model.ledger.provider_call_ids@.len() ==> (
        #[trigger] model.ledger.provider_call_ids@[i])@ == tool_call_id(model, i)
    &&& model.ledger.turn_budgets@ == recorded_budgets(model, rowed, rowed.len())
    &&& forall|i: int|
        batch_size(model) <= i < rowed.len() ==> paid_from_turn(model, i, #[trigger] rowed[i])
    &&& forall|k: int|
        0 <= k < model.ledger.turn_budgets@.len() ==> (#[trigger] model.ledger.turn_budgets@[k]).1
            != model.fence.budget_reservation_id
}

/// Whether the checkpoint's own parts agree about the tool at `index`, and its
/// transfer may leave through the turn's route.
pub open spec fn tool_bound(model: AdoptionModel, index: int) -> bool {
    if index < batch_size(model) {
        tool_consistent(model.payload, model.continuation, index) && tool_continuable(
            model.payload,
            model.continuation,
            index,
        )
    } else {
        let transfer = tool_transfer(model, index);
        transfer.route_matches && transfers_some_tool(transfer.manifest) && parsed_uuid(
            transfer.manifest.sources@[0].reference@,
        ) is Some
    }
}

/// Whether the budget is the committed one of a historical turn.
pub open spec fn history_budget_settles(
    model: AdoptionModel,
    budget: AiBudgetReservationRecord,
) -> bool {
    budget_settles(
        budget,
        model.lease,
        model.attempt_id,
        model.fence.lease_generation,
        model.fence.scope@,
        model.lease.principal_reference@.kind,
        model.fence.provider_kind@,
        model.fence.provider_model@,
    )
}

/// Whether the rows are the tool's finished, authorized, and disclosed
/// execution.
pub open spec fn tool_rows(model: AdoptionModel, index: int, evidence: ToolEvidence) -> bool {
    if index < batch_size(model) {
        current_call_bound(
            evidence.call,
            evidence.step,
            model.fence,
            model.payload,
            tool_transfer(model, index).manifest,
            index,
        )
    } else {
        &&& historical_call_bound(
            evidence.call,
            evidence.step,
            model.fence,
            history_item(model, index - batch_size(model)),
            tool_transfer(model, index).manifest,
        )
        &&& evidence.budget is Some
        &&& history_budget_settles(model, evidence.budget->0)
    }
}

/// Whether the opened contents are the recorded ones.
pub open spec fn tool_contents(model: AdoptionModel, index: int, evidence: ToolEvidence) -> bool {
    json_equal(evidence.arguments, tool_arguments(model, index)) && json_equal(
        evidence.output,
        tool_output(model, index),
    )
}

/// Whether the tool at `index` was admitted on this evidence.
pub open spec fn tool_admitted(model: AdoptionModel, index: int, evidence: ToolEvidence) -> bool {
    &&& tool_bound(model, index)
    &&& tool_rows(model, index, evidence)
    &&& tool_contents(model, index, evidence)
    &&& transfer_allowed(evidence.event, model.fence, tool_transfer(model, index).manifest)
}

/// Whether the checkpoint's parts were checked against each other.
pub open spec fn checkpoint_checked(model: AdoptionModel) -> bool {
    &&& payload_admitted(model.payload, model.fence.scope@)
    &&& continuation_chains(
        model.continuation,
        model.payload,
        text_option(model.fence.provider_response_id),
    )
    &&& model.fence.run_id == model.lease.run_id
    &&& model.fence.principal_subject == model.lease.principal_reference.subject
    &&& model.fence.correlation_id == model.payload.correlation_id
    &&& model.fence.provider_turn_index == model.payload.provider_turns - 1
}

/// Whether two adoptions are of the same checkpoint.
pub open spec fn same_checkpoint(left: AdoptionModel, right: AdoptionModel) -> bool {
    &&& left.checkpoint_id == right.checkpoint_id
    &&& left.attempt_id == right.attempt_id
    &&& left.lease == right.lease
    &&& left.fence == right.fence
    &&& left.payload == right.payload
    &&& left.continuation == right.continuation
}

/// Why an adoption cannot begin, in the order of checks.
pub open spec fn begin_refusal(
    checkpoint: Option<AiRunCheckpointRecord>,
    reservation: Option<AiBudgetReservationRecord>,
    expected_hash: Seq<char>,
    payload: CoordinatorCheckpointPayload,
    continuation: Option<AiAgentContinuation>,
    lease: AiRunLease,
    scope: AiScope,
) -> Option<ErrorModel> {
    let row = checkpoint->0;
    let budget = reservation->0;
    if checkpoint is None {
        Some(ErrorModel::NotFound)
    } else if !checkpoint_adoptable(row, lease) {
        Some(ErrorModel::Conflict)
    } else if reservation is None {
        Some(ErrorModel::NotFound)
    } else if !budget_settles(
        budget,
        lease,
        row.attempt_id,
        row.lease_generation,
        scope@,
        lease.principal_reference@.kind,
        budget.provider_kind@,
        budget.provider_model@,
    ) || row.checkpoint_hash@ != expected_hash || !payload_admitted(payload, scope@)
        || !provider_snapshot_bound(payload.provider_result, lease, row, budget) || continuation
        is None || !continuation_chains(
        continuation->0,
        payload,
        text_option(row.provider_response_id),
    ) {
        Some(ErrorModel::Conflict)
    } else {
        None
    }
}

/// Why the next tool cannot be bound.
pub open spec fn bind_refusal(model: AdoptionModel) -> Option<ErrorModel> {
    let index = model.position as int;
    if index < batch_size(model) {
        let tool = model.payload.completed_tools@[index];
        if has_id(model.ledger.durable_ids@, tool.id) || has_text(
            model.ledger.provider_call_ids@,
            tool.provider_call_id@,
        ) || !tool_consistent(model.payload, model.continuation, index) {
            Some(ErrorModel::Conflict)
        } else if !tool_continuable(model.payload, model.continuation, index) {
            Some(ErrorModel::EgressDenied)
        } else {
            None
        }
    } else {
        let transfer = tool_transfer(model, index);
        let item = history_item(model, index - batch_size(model));
        if !transfer.route_matches || !transfers_some_tool(transfer.manifest) {
            Some(ErrorModel::EgressDenied)
        } else {
            match parsed_uuid(transfer.manifest.sources@[0].reference@) {
                None => Some(ErrorModel::Conflict),
                Some(id) => if has_id(model.ledger.durable_ids@, id) || has_text(
                    model.ledger.provider_call_ids@,
                    item.call_id@,
                ) {
                    Some(ErrorModel::Conflict)
                } else {
                    None
                },
            }
        }
    }
}

/// Why the rows of the tool at hand are refused. Only a historical tool reads
/// the budget that its call names.
pub open spec fn rows_refusal(
    model: AdoptionModel,
    call: Option<AiToolCallRecord>,
    step: Option<AiRunStepRecord>,
    budget: Option<AiBudgetReservationRecord>,
) -> Option<ErrorModel> {
    let index = model.position as int;
    let evidence = ToolEvidence { call: call->0, step: step->0, budget, ..model.pending };
    let historical = index >= batch_size(model);
    if call is None || step is None {
        Some(ErrorModel::NotFound)
    } else if historical && call->0.budget_reservation_id is None {
        Some(ErrorModel::Conflict)
    } else if historical && budget is None {
        Some(ErrorModel::NotFound)
    } else if canonical_json_bytes(tool_arguments(model, index)) is None {
        Some(ErrorModel::PersistenceFailed)
    } else if !tool_rows(model, index, evidence) || (historical && !turn_budget_fits(
        model.ledger.turn_budgets@,
        history_item(model, index - batch_size(model)).provider_turn_index,
        call->0.budget_reservation_id->0,
        model.fence.budget_reservation_id,
    )) {
        Some(ErrorModel::Conflict)
    } else {
        None
    }
}

impl BatchAdoption {
    /// Sessions in which every tool before the one at hand was admitted, each
    /// on its own evidence, and no tool, call, or historical turn twice; the
    /// ledger holds exactly them.
    pub open spec fn wf(self) -> bool {
        let model = self@;
        &&& checkpoint_checked(model)
        &&& ledger_records(model)
        &&& model.position <= total_tools(model)
        &&& model.evidence.len() == model.position
        &&& forall|i: int|
            0 <= i < model.position ==> tool_admitted(model, i, #[trigger] model.evidence[i])
        &&& !(model.stage is Ready) ==> model.position < total_tools(model) && tool_bound(
            model,
            model.position as int,
        )
        &&& (model.stage is Rowed || model.stage is Opened) ==> tool_rows(
            model,
            model.position as int,
            model.pending,
        )
        &&& model.stage is Opened ==> tool_contents(model, model.position as int, model.pending)
    }

    /// Begins the adoption of an opened checkpoint. `expected_hash` is the
    /// recomputed hash of the row, `continuation` what its state decodes to.
    pub fn begin(
        checkpoint_id: Uuid,
        checkpoint: &Option<AiRunCheckpointRecord>,
        reservation: &Option<AiBudgetReservationRecord>,
        expected_hash: &str,
        payload: CoordinatorCheckpointPayload,
        continuation: Option<AiAgentContinuation>,
        lease: &AiRunLease,
        scope: &AiScope,
    ) -> (result: Result<BatchAdoption, AiError>)
        ensures
            refusal(result) == begin_refusal(
                *checkpoint,
                *reservation,
                expected_hash@,
                payload,
                continuation,
                *lease,
                *scope,
            ),
            result matches Ok(adoption) ==> {
                &&& adoption.wf()
                &&& adoption@.checkpoint_id == checkpoint_id
                &&& adoption@.attempt_id == checkpoint->0.attempt_id
                &&& adoption@.lease == *lease
                &&& adoption@.payload == payload
                &&& Some(adoption@.continuation) == continuation
                &&& adoption@.fence.scope == *scope
                &&& adoption@.fence.lease_generation == checkpoint->0.lease_generation
                &&& adoption@.fence.provider_kind == reservation->0.provider_kind
                &&& adoption@.fence.provider_model == reservation->0.provider_model
                &&& Some(adoption@.fence.budget_reservation_id)
                    == checkpoint->0.budget_reservation_id
                &&& adoption@.fence.correlation_id == payload.correlation_id
                &&& adoption@.fence.provider_response_id == checkpoint->0.provider_response_id
                &&& adoption@.ledger.turn_budgets@.len() == 0
                &&& adoption@.position == 0
                &&& adoption@.evidence.len() == 0
                &&& adoption@.stage is Ready
            },
    {
        let budget_reservation_id: Uuid = match check_adoptable(checkpoint, lease) {
            Ok(id) => id,
            Err(error) => return Err(error),
        };
        let row: &AiRunCheckpointRecord = match checkpoint {
            Some(row) => row,
            None => return Err(AiError::NotFound),
        };
        match check_adoption_budget(reservation, lease, row, scope) {
            Ok(()) => {},
            Err(error) => return Err(error),
        }
        let budget: &AiBudgetReservationRecord = match reservation {
            Some(budget) => budget,
            None => return Err(AiError::NotFound),
        };
        match check_checkpoint_hash(row, expected_hash) {
            Ok(()) => {},
            Err(error) => return Err(error),
        }
        match check_payload(&payload, scope) {
            Ok(()) => {},
            Err(error) => return Err(error),
        }
        match check_provider_snapshot(&payload.provider_result, lease, row, budget) {
            Ok(()) => {},
            Err(error) => return Err(error),
        }
        let continuation: AiAgentContinuation = match continuation {
            Some(continuation) => continuation,
            None => return Err(AiError::Conflict),
        };
        match check_continuation(&continuation, &payload, &row.provider_response_id) {
            Ok(()) => {},
            Err(error) => return Err(error),
        }
        let fence = adoption_fence(lease, row, budget, &payload, budget_reservation_id, scope);
        let ghost pending: ToolEvidence = arbitrary();
        let ledger = AdoptionLedger::new();
        assert(ledger.turn_budgets@ =~= Seq::<(i64, Uuid)>::empty());
        Ok(
            BatchAdoption {
                checkpoint_id,
                attempt_id: row.attempt_id,
                lease: lease.clone(),
                fence,
                payload,
                continuation,
                ledger,
                position: 0,
                stage: AdoptionStage::Ready,
                pending: Ghost(pending),
                evidence: Ghost(Seq::empty()),
            },
        )
    }

    /// Whether a tool is still to be admitted.
    pub fn has_next(&self) -> (result: bool)
        requires
            self.wf(),
        ensures
            result == (self@.position < total_tools(self@)),
    {
        let history: usize = match &self.continuation.stateless_evidence {
            Some(evidence) => evidence.tools.len() - evidence.current_tool_count,
            None => 0,
        };
        self.position < self.payload.completed_tools.len() || self.position
            - self.payload.completed_tools.len() < history
    }

    /// Binds the next tool and returns its durable identity.
    pub fn bind_next(self) -> (result: Result<(BatchAdoption, Uuid), AiError>)
        requires
            self.wf(),
            self@.stage is Ready,
            self@.position < total_tools(self@),
        ensures
            refusal(result) == bind_refusal(self@),
            result matches Ok((adoption, id)) ==> {
                &&& adoption.wf()
                &&& same_checkpoint(adoption@, self@)
                &&& adoption@.position == self@.position
                &&& adoption@.evidence == self@.evidence
                &&& adoption@.stage is Bound
                &&& id == tool_identity(self@, self@.position as int)
                &&& self@.position >= batch_size(self@) ==> Some(id) == parsed_uuid(
                    tool_transfer(
                        self@,
                        self@.position as int,
                    ).manifest.sources@[0].reference@,
                )
                &&& adoption@.ledger.durable_ids@ == self@.ledger.durable_ids@.push(id)
                &&& adoption@.ledger.provider_call_ids@ == self@.ledger.provider_call_ids@.push(
                    if self@.position < batch_size(self@) {
                        self@.payload.completed_tools@[self@.position as int].provider_call_id
                    } else {
                        history_item(self@, self@.position - batch_size(self@)).call_id
                    },
                )
                &&& adoption@.ledger.turn_budgets == self@.ledger.turn_budgets
            },
    {
        let ghost before = self@;
        let mut adoption = self;
        let batch: usize = adoption.payload.completed_tools.len();
        let id: Uuid = if adoption.position < batch {
            match adoption.ledger.bind_current_tool(
                &adoption.payload,
                &adoption.continuation,
                adoption.position,
            ) {
                Ok(()) => adoption.payload.completed_tools[adoption.position].id,
                Err(error) => return Err(error),
            }
        } else {
            let index: usize = adoption.position - batch;
            match &adoption.continuation.stateless_evidence {
                Some(evidence) => match adoption.ledger.bind_historical_tool(
                    &evidence.tools[index],
                    &adoption.continuation.replay_transfers[index],
                ) {
                    Ok(id) => id,
                    Err(error) => return Err(error),
                },
                None => return Err(AiError::Conflict),
            }
        };
        adoption.stage = AdoptionStage::Bound;
        proof {
            lemma_same_tools(before, adoption@);
            lemma_same_budgets(
                before,
                adoption@,
                rowed_evidence(before),
                rowed_evidence(adoption@),
                before.position,
            );
        }
        Ok((adoption, id))
    }

    /// Admits the rows of the tool at hand and returns its egress decision.
    #[verifier::rlimit(40)]
    pub fn admit_rows(
        self,
        call: &Option<AiToolCallRecord>,
        step: &Option<AiRunStepRecord>,
        budget: &Option<AiBudgetReservationRecord>,
    ) -> (result: Result<(BatchAdoption, Uuid), AiError>)
        requires
            self.wf(),
            self@.stage is Bound,
        ensures
            refusal(result) == rows_refusal(self@, *call, *step, *budget),
            result matches Ok((adoption, decision)) ==> {
                &&& adoption.wf()
                &&& same_checkpoint(adoption@, self@)
                &&& adoption@.position == self@.position
                &&& adoption@.evidence == self@.evidence
                &&& adoption@.stage is Rowed
                &&& adoption@.pending.call == call->0
                &&& adoption@.pending.step == step->0
                &&& adoption@.pending.budget == *budget
                &&& adoption@.ledger.durable_ids == self@.ledger.durable_ids
                &&& adoption@.ledger.provider_call_ids == self@.ledger.provider_call_ids
                &&& adoption@.ledger.turn_budgets@ == {
                    let budgets = self@.ledger.turn_budgets@;
                    let item = history_item(self@, self@.position - batch_size(self@));
                    if self@.position < batch_size(self@) || turn_budget(
                        budgets,
                        item.provider_turn_index,
                    ) is Some {
                        budgets
                    } else {
                        budgets.push(
                            (item.provider_turn_index, call->0.budget_reservation_id->0),
                        )
                    }
                }
                &&& call->0.result_egress_decision_id == Some(decision)
            },
    {
        let ghost before = self@;
        let ghost rows = ToolEvidence {
            call: call->0,
            step: step->0,
            budget: *budget,
            ..self.pending@
        };
        let mut adoption = self;
        let batch: usize = adoption.payload.completed_tools.len();
        let decision: Uuid = if adoption.position < batch {
            match check_current_call(
                call,
                step,
                &adoption.fence,
                &adoption.payload,
                &adoption.continuation.transfers[adoption.position].manifest,
                adoption.position,
            ) {
                Ok(decision) => decision,
                Err(error) => return Err(error),
            }
        } else {
            let index: usize = adoption.position - batch;
            match &adoption.continuation.stateless_evidence {
                Some(evidence) => match adoption.ledger.check_historical_call(
                    call,
                    step,
                    budget,
                    &adoption.lease,
                    adoption.attempt_id,
                    &adoption.fence,
                    &evidence.tools[index],
                    &adoption.continuation.replay_transfers[index].manifest,
                ) {
                    Ok(decision) => decision,
                    Err(error) => return Err(error),
                },
                None => return Err(AiError::Conflict),
            }
        };
        adoption.pending = Ghost(rows);
        adoption.stage = AdoptionStage::Rowed;
        proof {
            lemma_same_tools(before, adoption@);
            lemma_rows_recorded(before, adoption@);
        }
        Ok((adoption, decision))
    }

    /// Admits the opened arguments and result of the tool at hand. A call
    /// without a stored result is a conflict.
    pub fn admit_opened(self, arguments: &Vec<u8>, output: &Option<Vec<u8>>) -> (result: Result<
        BatchAdoption,
        AiError,
    >)
        requires
            self.wf(),
            self@.stage is Rowed,
        ensures
            refusal(result) == if output is Some && json_equal(
                arguments@,
                tool_arguments(self@, self@.position as int),
            ) && json_equal(output->0@, tool_output(self@, self@.position as int)) {
                None
            } else {
                Some(ErrorModel::Conflict)
            },
            result matches Ok(adoption) ==> {
                &&& adoption.wf()
                &&& same_checkpoint(adoption@, self@)
                &&& adoption@.position == self@.position
                &&& adoption@.evidence == self@.evidence
                &&& adoption@.stage is Opened
                &&& adoption@.pending == (ToolEvidence {
                    arguments: arguments@,
                    output: output->0@,
                    ..self@.pending
                })
                &&& adoption@.ledger == self@.ledger
            },
    {
        let ghost before = self@;
        let output: &Vec<u8> = match output {
            Some(output) => output,
            None => return Err(AiError::Conflict),
        };
        let ghost opened = ToolEvidence {
            arguments: arguments@,
            output: output@,
            ..self.pending@
        };
        let mut adoption = self;
        let batch: usize = adoption.payload.completed_tools.len();
        if adoption.position < batch {
            match &adoption.continuation.input[adoption.position] {
                ModelInputBlock::ToolResult { output: expected, .. } => match check_opened_tool(
                    arguments,
                    output,
                    &adoption.payload.provider_result.tool_calls[adoption.position].arguments,
                    expected,
                ) {
                    Ok(()) => {},
                    Err(error) => return Err(error),
                },
                _ => return Err(AiError::Conflict),
            }
        } else {
            let index: usize = adoption.position - batch;
            match &adoption.continuation.stateless_evidence {
                Some(evidence) => match check_opened_tool(
                    arguments,
                    output,
                    &evidence.tools[index].arguments,
                    &evidence.tools[index].output,
                ) {
                    Ok(()) => {},
                    Err(error) => return Err(error),
                },
                None => return Err(AiError::Conflict),
            }
        }
        adoption.pending = Ghost(opened);
        adoption.stage = AdoptionStage::Opened;
        proof {
            lemma_same_tools(before, adoption@);
            lemma_budgets_kept(before, adoption@);
        }
        Ok(adoption)
    }

    /// Admits the egress decision of the tool at hand, and with it the tool.
    pub fn admit_transfer(self, event: &Option<AiEgressEventRecord>) -> (result: Result<
        BatchAdoption,
        AiError,
    >)
        requires
            self.wf(),
            self@.stage is Opened,
        ensures
            refusal(result) == match event {
                None => Some(ErrorModel::NotFound),
                Some(event) => if transfer_allowed(
                    *event,
                    self@.fence,
                    tool_transfer(self@, self@.position as int).manifest,
                ) {
                    None
                } else {
                    Some(ErrorModel::EgressDenied)
                },
            },
            result matches Ok(adoption) ==> {
                &&& adoption.wf()
                &&& same_checkpoint(adoption@, self@)
                &&& adoption@.position == self@.position + 1
                &&& adoption@.stage is Ready
                &&& adoption@.evidence == self@.evidence.push(
                    ToolEvidence { event: event->0, ..self@.pending },
                )
                &&& adoption@.ledger == self@.ledger
            },
    {
        let ghost before = self@;
        let ghost admitted = ToolEvidence { event: event->0, ..self.pending@ };
        let mut adoption = self;
        let batch: usize = adoption.payload.completed_tools.len();
        let manifest: &AiEgressManifest = if adoption.position < batch {
            &adoption.continuation.transfers[adoption.position].manifest
        } else {
            &adoption.continuation.replay_transfers[adoption.position - batch].manifest
        };
        match check_transfer(event, &adoption.fence, manifest) {
            Ok(()) => {},
            Err(error) => return Err(error),
        }
        proof {
            assert(tool_admitted(before, before.position as int, admitted));
        }
        adoption.evidence = Ghost(adoption.evidence@.push(admitted));
        adoption.stage = AdoptionStage::Ready;
        adoption.position = adoption.position + 1;
        proof {
            lemma_same_tools(before, adoption@);
            lemma_budgets_kept(before, adoption@);
        }
        Ok(adoption)
    }

    /// Accepts a history in which every earlier turn has a budget of its own;
    /// a chain through a retained response has no history to check.
    pub fn check_history(&self) -> (result: Result<(), AiError>)
        requires
            self.wf(),
        ensures
            refusal(result) == history_refusal(self@),
    {
        if self.continuation.stateless_evidence.is_some() {
            self.ledger.check_history_complete(self.payload.provider_turns)
        } else {
            Ok(())
        }
    }

    /// Takes the adopted batch, where neither the authority nor the rules have
    /// drifted meanwhile. Every tool of the batch and of its history has been
    /// admitted by then.
    pub fn finish(
        self,
        started: &ContentAuthority,
        current: &ContentAuthority,
        current_fingerprint: &str,
        usage_valid: bool,
    ) -> (result: Result<AiAdoptedReadOnlyToolBatch, AiError>)
        requires
            self.wf(),
            self@.stage is Ready,
            self@.position == total_tools(self@),
            started.wf(),
            current.wf(),
        ensures
            refusal(result) == if history_refusal(self@) is Some {
                history_refusal(self@)
            } else if started@.scope@ == self@.fence.scope@ && authority_unchanged(
                *started,
                *current,
                self@.lease,
            ) && current_fingerprint@ == self@.payload.rule_fingerprint@ && usage_valid {
                None
            } else {
                Some(ErrorModel::ReauthorizationFailed)
            },
            result matches Ok(batch) ==> {
                &&& batch.checkpoint() == self@.checkpoint_id
                &&& batch.turns() == self@.payload.provider_turns
                &&& batch.tool_calls() == self@.payload.total_tool_calls
                &&& batch.batch_scope() == self@.fence.scope
                &&& batch.next_continuation() == self@.continuation
                &&& batch.rules() == self@.payload.rule_fingerprint@
                &&& batch.usage() == self@.payload.rule_usage
            },
    {
        match self.check_history() {
            Ok(()) => {},
            Err(error) => return Err(error),
        }
        if !same_scope(started.scope(), &self.fence.scope) {
            return Err(AiError::ReauthorizationFailed);
        }
        match require_unchanged_authority(started, current, &self.lease) {
            Ok(()) => {},
            Err(error) => return Err(error),
        }
        match require_unchanged_rules(
            self.payload.rule_fingerprint.as_str(),
            current_fingerprint,
            usage_valid,
        ) {
            Ok(()) => {},
            Err(error) => return Err(error),
        }
        let BatchAdoption { checkpoint_id, fence, payload, continuation, .. } = self;
        Ok(
            AiAdoptedReadOnlyToolBatch::new(
                checkpoint_id,
                payload.provider_turns,
                payload.total_tool_calls,
                fence.scope,
                continuation,
                payload.rule_fingerprint,
                payload.rule_usage,
            ),
        )
    }
}

/// Why a stateless history is incomplete.
pub open spec fn history_refusal(model: AdoptionModel) -> Option<ErrorModel> {
    if model.continuation.stateless_evidence is Some && model.ledger.turn_budgets@.len()
        != model.payload.provider_turns - 1 {
        Some(ErrorModel::Conflict)
    } else {
        None
    }
}

/// What is admitted of a tool depends on the checkpoint alone.
proof fn lemma_same_tools(left: AdoptionModel, right: AdoptionModel)
    requires
        same_checkpoint(left, right),
    ensures
        forall|i: int, evidence: ToolEvidence|
            #![trigger tool_admitted(right, i, evidence)]
            tool_admitted(left, i, evidence) == tool_admitted(right, i, evidence),
        forall|i: int| #![trigger tool_bound(right, i)] tool_bound(left, i) == tool_bound(right, i),
        total_tools(left) == total_tools(right),
{
}

/// Budgets are recorded from the checkpoint and the calls alone.
proof fn lemma_same_budgets(
    left: AdoptionModel,
    right: AdoptionModel,
    left_evidence: Seq<ToolEvidence>,
    right_evidence: Seq<ToolEvidence>,
    count: nat,
)
    requires
        same_checkpoint(left, right),
        forall|i: int|
            0 <= i < count ==> (#[trigger] left_evidence[i]).call == right_evidence[i].call,
    ensures
        recorded_budgets(left, left_evidence, count) == recorded_budgets(
            right,
            right_evidence,
            count,
        ),
    decreases count,
{
    if count > batch_size(left) {
        lemma_same_budgets(left, right, left_evidence, right_evidence, (count - 1) as nat);
        assert(left_evidence[count - 1].call == right_evidence[count - 1].call);
    }
}

/// A step that keeps the calls and the ledger keeps what is recorded.
proof fn lemma_budgets_kept(left: AdoptionModel, right: AdoptionModel)
    requires
        same_checkpoint(left, right),
        ledger_records(left),
        left.evidence.len() == left.position,
        right.evidence.len() == right.position,
        left.ledger == right.ledger,
        rowed_evidence(left).len() == rowed_evidence(right).len(),
        forall|i: int|
            0 <= i < rowed_evidence(left).len() ==> (#[trigger] rowed_evidence(left)[i]).call
                == rowed_evidence(right)[i].call,
        right.ledger.durable_ids@.len() == right.position + if right.stage is Ready {
            0int
        } else {
            1
        },
    ensures
        ledger_records(right),
{
    let before = rowed_evidence(left);
    let after = rowed_evidence(right);
    lemma_same_budgets(left, right, before, after, before.len());
    assert forall|i: int| batch_size(right) <= i < after.len() implies paid_from_turn(
        right,
        i,
        #[trigger] after[i],
    ) by {
        assert(paid_from_turn(left, i, before[i]));
    }
}

proof fn lemma_turn_of_entry(budgets: Seq<(i64, Uuid)>, k: int)
    requires
        0 <= k < budgets.len(),
        forall|i: int, j: int|
            0 <= i < j < budgets.len() ==> (#[trigger] budgets[i]).0 != (#[trigger] budgets[j]).0,
    ensures
        turn_budget(budgets, budgets[k].0) == Some(budgets[k].1),
{
    let turn = budgets[k].0;
    let found = choose|i: int| 0 <= i < budgets.len() && (#[trigger] budgets[i]).0 == turn;
    assert(budgets[k].0 == turn);
    assert(found == k);
}

/// A further turn leaves the budgets of the earlier ones as they are.
proof fn lemma_turn_pushed(budgets: Seq<(i64, Uuid)>, entry: (i64, Uuid), turn: i64)
    requires
        turn_budget(budgets, entry.0) is None,
        forall|i: int, j: int|
            0 <= i < j < budgets.len() ==> (#[trigger] budgets[i]).0 != (#[trigger] budgets[j]).0,
    ensures
        turn_budget(budgets.push(entry), entry.0) == Some(entry.1),
        turn_budget(budgets, turn) is Some ==> turn_budget(budgets.push(entry), turn)
            == turn_budget(budgets, turn),
{
    let pushed = budgets.push(entry);
    let last = budgets.len() as int;
    assert(pushed[last] == entry);
    assert forall|i: int, j: int| 0 <= i < j < pushed.len() implies (#[trigger] pushed[i]).0 != (
    #[trigger] pushed[j]).0 by {
        if j == last {
            assert(pushed[i] == budgets[i]);
        } else {
            assert(pushed[i] == budgets[i] && pushed[j] == budgets[j]);
        }
    }
    lemma_turn_of_entry(pushed, last);
    if turn_budget(budgets, turn) is Some {
        let k = choose|k: int| 0 <= k < budgets.len() && (#[trigger] budgets[k]).0 == turn;
        lemma_turn_of_entry(budgets, k);
        assert(pushed[k] == budgets[k]);
        lemma_turn_of_entry(pushed, k);
    }
}

/// Admitted rows are recorded: the turn of a historical tool keeps its budget,
/// or gets the one of the tool's call.
proof fn lemma_rows_recorded(left: AdoptionModel, right: AdoptionModel)
    requires
        same_checkpoint(left, right),
        ledger_records(left),
        right.ledger.wf(),
        left.stage is Bound,
        right.stage is Rowed,
        left.evidence == right.evidence,
        left.evidence.len() == left.position,
        right.position == left.position,
        right.ledger.durable_ids == left.ledger.durable_ids,
        right.ledger.provider_call_ids == left.ledger.provider_call_ids,
        ({
            let budgets = left.ledger.turn_budgets@;
            let budget = right.pending.call.budget_reservation_id;
            let turn = history_item(
                left,
                left.position - batch_size(left),
            ).provider_turn_index;
            if left.position < batch_size(left) {
                right.ledger.turn_budgets@ == budgets
            } else {
                &&& budget is Some
                &&& turn_budget_fits(budgets, turn, budget->0, left.fence.budget_reservation_id)
                &&& right.ledger.turn_budgets@ == if turn_budget(budgets, turn) is Some {
                    budgets
                } else {
                    budgets.push((turn, budget->0))
                }
            }
        }),
    ensures
        ledger_records(right),
{
    let before = rowed_evidence(left);
    let after = rowed_evidence(right);
    let count = left.position;
    let budgets = left.ledger.turn_budgets@;
    assert(before == left.evidence);
    assert(after == left.evidence.push(right.pending));
    lemma_same_budgets(left, right, before, after, count);
    assert(recorded_budgets(right, after, count + 1) == right.ledger.turn_budgets@);
    assert forall|i: int| batch_size(right) <= i < after.len() implies paid_from_turn(
        right,
        i,
        #[trigger] after[i],
    ) by {
        let turn = history_item(left, count - batch_size(left)).provider_turn_index;
        let own = history_item(left, i - batch_size(left)).provider_turn_index;
        if i < count {
            assert(after[i] == before[i]);
            assert(paid_from_turn(left, i, before[i]));
        }
        if turn_budget(budgets, turn) is None {
            lemma_turn_pushed(
                budgets,
                (turn, right.pending.call.budget_reservation_id->0),
                own,
            );
        }
    }
}

/// A batch is adopted only on complete evidence: at the end of a session every
/// tool of the batch and of its stateless history was admitted on rows,
/// contents, and an egress decision of its own, and no two of them are the same
/// tool or answered the same call.
pub proof fn adopted_batch_is_proven(adoption: BatchAdoption, index: int, other: int)
    requires
        adoption.wf(),
        adoption@.stage is Ready,
        adoption@.position == total_tools(adoption@),
        0 <= index < total_tools(adoption@),
        0 <= other < total_tools(adoption@),
    ensures
        tool_admitted(adoption@, index, adoption@.evidence[index]),
        index != other ==> tool_identity(adoption@, index) != tool_identity(adoption@, other),
        index != other ==> tool_call_id(adoption@, index) != tool_call_id(adoption@, other),
{
    let ledger = adoption@.ledger;
    assert(ledger.durable_ids@[index] == tool_identity(adoption@, index));
    assert(ledger.durable_ids@[other] == tool_identity(adoption@, other));
    assert(ledger.provider_call_ids@[index]@ == tool_call_id(adoption@, index));
    assert(ledger.provider_call_ids@[other]@ == tool_call_id(adoption@, other));
}

/// An adopted stateless history is paid turn by turn: all tools of one turn
/// were paid from one budget, tools of different turns from different budgets,
/// and none from the current one.
pub proof fn adopted_turns_are_paid_apart(adoption: BatchAdoption, index: int, other: int)
    requires
        adoption.wf(),
        adoption@.stage is Ready,
        batch_size(adoption@) <= index < adoption@.position,
        batch_size(adoption@) <= other < adoption@.position,
    ensures
        ({
            let model = adoption@;
            let budget = model.evidence[index].call.budget_reservation_id;
            let turn = history_item(model, index - batch_size(model)).provider_turn_index;
            let other_budget = model.evidence[other].call.budget_reservation_id;
            let other_turn = history_item(model, other - batch_size(model)).provider_turn_index;
            &&& budget is Some
            &&& budget != Some(model.fence.budget_reservation_id)
            &&& turn == other_turn <==> budget == other_budget
        }),
{
    let model = adoption@;
    let budgets = model.ledger.turn_budgets@;
    let turn = history_item(model, index - batch_size(model)).provider_turn_index;
    let other_turn = history_item(model, other - batch_size(model)).provider_turn_index;
    assert(paid_from_turn(model, index, rowed_evidence(model)[index]));
    assert(paid_from_turn(model, other, rowed_evidence(model)[other]));
    let k = choose|k: int| 0 <= k < budgets.len() && (#[trigger] budgets[k]).0 == turn;
    let j = choose|j: int| 0 <= j < budgets.len() && (#[trigger] budgets[j]).0 == other_turn;
    assert(budgets[k].1 != model.fence.budget_reservation_id);
    if turn != other_turn {
        assert(k != j);
        assert(budgets[k].1 != budgets[j].1);
    }
}

/// Turns of the recorded budgets.
spec fn recorded_turns(budgets: Seq<(i64, Uuid)>) -> Set<int> {
    budgets.map_values(|entry: (i64, Uuid)| entry.0 as int).to_set()
}

/// Turns are recorded from the history alone.
proof fn lemma_recorded_from_history(
    model: AdoptionModel,
    evidence: Seq<ToolEvidence>,
    count: nat,
    k: int,
) -> (index: int)
    requires
        0 <= k < recorded_budgets(model, evidence, count).len(),
    ensures
        batch_size(model) <= index < count,
        history_item(model, index - batch_size(model)).provider_turn_index == recorded_budgets(
            model,
            evidence,
            count,
        )[k].0,
    decreases count,
{
    let before = recorded_budgets(model, evidence, (count - 1) as nat);
    if k < before.len() {
        lemma_recorded_from_history(model, evidence, (count - 1) as nat, k)
    } else {
        count - 1
    }
}

/// In a history that is accepted as complete and whose tools belong to earlier
/// turns, every earlier turn has a tool, and a budget of its own.
pub proof fn earlier_turns_are_covered(adoption: BatchAdoption, turn: int) -> (index: int)
    requires
        adoption.wf(),
        adoption@.stage is Ready,
        adoption@.position == total_tools(adoption@),
        adoption@.continuation.stateless_evidence is Some,
        history_refusal(adoption@) is None,
        forall|i: int|
            0 <= i < history_size(adoption@) ==> 0 <= (#[trigger] history_item(
                adoption@,
                i,
            )).provider_turn_index < adoption@.payload.provider_turns - 1,
        0 <= turn < adoption@.payload.provider_turns - 1,
    ensures
        batch_size(adoption@) <= index < total_tools(adoption@),
        history_item(adoption@, index - batch_size(adoption@)).provider_turn_index == turn,
        turn_budget(adoption@.ledger.turn_budgets@, turn as i64)
            == adoption@.evidence[index].call.budget_reservation_id,
        adoption@.evidence[index].call.budget_reservation_id is Some,
{
    let model = adoption@;
    let budgets = model.ledger.turn_budgets@;
    let rowed = rowed_evidence(model);
    let turns = budgets.map_values(|entry: (i64, Uuid)| entry.0 as int);
    let earlier = vstd::set_lib::set_int_range(0, model.payload.provider_turns - 1);
    vstd::set_lib::lemma_int_range(0, model.payload.provider_turns - 1);
    assert forall|i: int, j: int| 0 <= i < turns.len() && 0 <= j < turns.len() && i
        != j implies turns[i] != turns[j] by {
        if i < j {
            assert(budgets[i].0 != budgets[j].0);
        } else {
            assert(budgets[j].0 != budgets[i].0);
        }
    }
    assert(turns.no_duplicates());
    turns.unique_seq_to_set();
    assert forall|value: int| recorded_turns(budgets).contains(value) implies earlier.contains(
        value,
    ) by {
        let k = choose|k: int| 0 <= k < turns.len() && turns[k] == value;
        let at = lemma_recorded_from_history(model, rowed, rowed.len(), k);
        assert(0 <= history_item(model, at - batch_size(model)).provider_turn_index
            < model.payload.provider_turns - 1);
    }
    vstd::set_lib::lemma_subset_equality(recorded_turns(budgets), earlier);
    assert(recorded_turns(budgets).contains(turn));
    let k = choose|k: int| 0 <= k < turns.len() && turns[k] == turn;
    let index = lemma_recorded_from_history(model, rowed, rowed.len(), k);
    assert(paid_from_turn(model, index, rowed[index]));
    index
}

/// The tools of an adoption are those of the batch, then those of its history
/// before the batch, each with its own transfer, arguments, output, identity,
/// and call.
pub proof fn adoption_walks_batch_and_history(model: AdoptionModel, index: int)
    ensures
        ({
            let tools = model.payload.completed_tools@;
            &&& model.continuation.stateless_evidence is None ==> total_tools(model) == tools.len()
            &&& (model.continuation.stateless_evidence matches Some(history)
                && history.current_tool_count == tools.len() && tools.len() <= history.tools@.len())
                ==> total_tools(model) == model.continuation.stateless_evidence->0.tools@.len()
            &&& 0 <= index < tools.len() ==> {
                &&& tool_transfer(model, index) == model.continuation.transfers@[index]
                &&& tool_arguments(model, index)
                    == model.payload.provider_result.tool_calls@[index].arguments@
                &&& tool_output(model, index) == model.continuation.input@[index]->output@
                &&& tool_identity(model, index) == tools[index].id
                &&& tool_call_id(model, index) == tools[index].provider_call_id@
            }
            &&& index >= tools.len() ==> {
                let item = model.continuation.stateless_evidence->0.tools@[index - tools.len()];
                let transfer = model.continuation.replay_transfers@[index - tools.len()];
                &&& tool_transfer(model, index) == transfer
                &&& tool_arguments(model, index) == item.arguments@
                &&& tool_output(model, index) == item.output@
                &&& tool_identity(model, index) == parsed_uuid(
                    transfer.manifest.sources@[0].reference@,
                )->0
                &&& tool_call_id(model, index) == item.call_id@
            }
        }),
{
}

/// An adoption begins exactly where the checkpoint is adoptable, its budget is
/// the committed one of its attempt, its hash is the recomputed one, and its
/// opened parts belong together.
pub proof fn adoptions_begin_on_whole_checkpoints(
    checkpoint: Option<AiRunCheckpointRecord>,
    reservation: Option<AiBudgetReservationRecord>,
    expected_hash: Seq<char>,
    payload: CoordinatorCheckpointPayload,
    continuation: Option<AiAgentContinuation>,
    lease: AiRunLease,
    scope: AiScope,
)
    ensures
        begin_refusal(
            checkpoint,
            reservation,
            expected_hash,
            payload,
            continuation,
            lease,
            scope,
        ) is None <==> {
            &&& checkpoint is Some && reservation is Some && continuation is Some
            &&& checkpoint_adoptable(checkpoint->0, lease)
            &&& budget_settles(
                reservation->0,
                lease,
                checkpoint->0.attempt_id,
                checkpoint->0.lease_generation,
                scope@,
                lease.principal_reference@.kind,
                reservation->0.provider_kind@,
                reservation->0.provider_model@,
            )
            &&& checkpoint->0.checkpoint_hash@ == expected_hash
            &&& payload_admitted(payload, scope@)
            &&& provider_snapshot_bound(
                payload.provider_result,
                lease,
                checkpoint->0,
                reservation->0,
            )
            &&& continuation_chains(
                continuation->0,
                payload,
                text_option(checkpoint->0.provider_response_id),
            )
        },
{
}

/// A tool is bound exactly where the checkpoint agrees about it and neither it
/// nor its call was bound before.
pub proof fn tools_are_bound_once(model: AdoptionModel)
    ensures
        bind_refusal(model) is None <==> {
            let index = model.position as int;
            &&& tool_bound(model, index)
            &&& forall|k: int|
                0 <= k < model.ledger.durable_ids@.len() ==> #[trigger] model.ledger.durable_ids@[k]
                    != tool_identity(model, index)
            &&& forall|k: int|
                0 <= k < model.ledger.provider_call_ids@.len() ==> (
                #[trigger] model.ledger.provider_call_ids@[k])@ != tool_call_id(model, index)
        },
{
}

/// A historical tool is bound by its transfer: one that the turn's route takes
/// and that discloses exactly one tool's result, named by a readable identity.
pub proof fn historical_tools_are_named_by_their_transfer(model: AdoptionModel, index: int)
    requires
        index >= model.payload.completed_tools@.len(),
    ensures
        tool_bound(model, index) <==> {
            let transfer = model.continuation.replay_transfers@[index
                - model.payload.completed_tools@.len()];
            &&& transfer.route_matches
            &&& transfer.manifest.sources@.len() == 1
            &&& transfer.manifest.sources@[0].kind@ == "application_tool_result"@
            &&& parsed_uuid(transfer.manifest.sources@[0].reference@) is Some
        },
{
}

/// The rows of a tool are taken exactly where they are its recorded execution;
/// a historical one also needs the committed budget of its own turn.
pub proof fn rows_are_the_recorded_executions(
    model: AdoptionModel,
    call: Option<AiToolCallRecord>,
    step: Option<AiRunStepRecord>,
    budget: Option<AiBudgetReservationRecord>,
)
    ensures
        rows_refusal(model, call, step, budget) is None <==> {
            let index = model.position as int;
            let manifest = tool_transfer(model, index).manifest;
            &&& call is Some && step is Some
            &&& canonical_json_bytes(tool_arguments(model, index)) is Some
            &&& index < model.payload.completed_tools@.len() ==> current_call_bound(
                call->0,
                step->0,
                model.fence,
                model.payload,
                manifest,
                index,
            )
            &&& index >= model.payload.completed_tools@.len() ==> {
                let item = model.continuation.stateless_evidence->0.tools@[index
                    - model.payload.completed_tools@.len()];
                &&& historical_call_bound(call->0, step->0, model.fence, item, manifest)
                &&& call->0.budget_reservation_id is Some
                &&& budget is Some
                &&& budget_settles(
                    budget->0,
                    model.lease,
                    model.attempt_id,
                    model.fence.lease_generation,
                    model.fence.scope@,
                    model.lease.principal_reference@.kind,
                    model.fence.provider_kind@,
                    model.fence.provider_model@,
                )
                &&& turn_budget_fits(
                    model.ledger.turn_budgets@,
                    item.provider_turn_index,
                    call->0.budget_reservation_id->0,
                    model.fence.budget_reservation_id,
                )
            }
        },
{
}

/// A history is complete exactly where there is none, or it has one budget for
/// every turn before the current one.
pub proof fn histories_have_every_earlier_turn(model: AdoptionModel)
    ensures
        history_refusal(model) is None <==> model.continuation.stateless_evidence is None
            || model.ledger.turn_budgets@.len() + 1 == model.payload.provider_turns,
        history_refusal(model) matches Some(error) ==> error == ErrorModel::Conflict,
{
}

/// An adoption is refused for what is wrong: a missing row is not found, a
/// transfer that may not leave is denied, and whatever does not agree is a
/// conflict.
pub proof fn refused_adoptions_say_why(
    model: AdoptionModel,
    checkpoint: Option<AiRunCheckpointRecord>,
    reservation: Option<AiBudgetReservationRecord>,
    expected_hash: Seq<char>,
    payload: CoordinatorCheckpointPayload,
    continuation: Option<AiAgentContinuation>,
    lease: AiRunLease,
    scope: AiScope,
    call: Option<AiToolCallRecord>,
    step: Option<AiRunStepRecord>,
    budget: Option<AiBudgetReservationRecord>,
)
    ensures
        ({
            let refusal = begin_refusal(
                checkpoint,
                reservation,
                expected_hash,
                payload,
                continuation,
                lease,
                scope,
            );
            let adoptable = checkpoint is Some && checkpoint_adoptable(checkpoint->0, lease);
            &&& refusal == Some(ErrorModel::NotFound) <==> checkpoint is None || (adoptable
                && reservation is None)
            &&& refusal is Some && refusal != Some(ErrorModel::NotFound) ==> refusal == Some(
                ErrorModel::Conflict,
            )
        }),
        ({
            let refusal = bind_refusal(model);
            let index = model.position as int;
            &&& refusal == Some(ErrorModel::EgressDenied) ==> !tool_bound(model, index)
            &&& refusal is Some && refusal != Some(ErrorModel::EgressDenied) ==> refusal == Some(
                ErrorModel::Conflict,
            )
            &&& index >= batch_size(model) && !(tool_transfer(model, index).route_matches
                && transfers_some_tool(tool_transfer(model, index).manifest)) ==> refusal == Some(
                ErrorModel::EgressDenied,
            )
            &&& index < batch_size(model) && !tool_consistent(
                model.payload,
                model.continuation,
                index,
            ) ==> refusal == Some(ErrorModel::Conflict)
        }),
        ({
            let refusal = rows_refusal(model, call, step, budget);
            let index = model.position as int;
            &&& call is None || step is None ==> refusal == Some(ErrorModel::NotFound)
            &&& call is Some && step is Some && index < batch_size(model) && refusal is Some
                && refusal != Some(ErrorModel::PersistenceFailed) ==> refusal == Some(
                ErrorModel::Conflict,
            )
            &&& call is Some && step is Some && index >= batch_size(model)
                && call->0.budget_reservation_id is None ==> refusal == Some(ErrorModel::Conflict)
            &&& call is Some && step is Some && index >= batch_size(model)
                && call->0.budget_reservation_id is Some && budget is None ==> refusal == Some(
                ErrorModel::NotFound,
            )
            &&& refusal == Some(ErrorModel::PersistenceFailed) ==> canonical_json_bytes(
                tool_arguments(model, index),
            ) is None
        }),
{
}

/// A history without every earlier turn is a conflict.
pub proof fn incomplete_histories_conflict(model: AdoptionModel)
    ensures
        history_refusal(model) is Some ==> history_refusal(model) == Some(ErrorModel::Conflict),
        model.continuation.stateless_evidence is None ==> history_refusal(model) is None,
{
}

} // verus!
