//! Settlement of budget reservations.
//!
//! A reservation is committed with authoritative usage, released unused, or
//! marked uncertain. An uncertain reservation stays held until authoritative
//! usage commits it; it can never be released.

use crate::budget::amounts::{
    AiBudgetAmounts, StoredAmounts, added, as_amounts, as_stored, bounds_hold_in_every_unit,
    checked_add, checked_sub, columns, difference, excess, loaded, non_negative, saturating_sub,
    storable, store_amounts, stored_amounts, subtracted, subtraction_subtracts_every_unit, sum,
    units, zero_amounts,
};
use crate::budget::reservation::{is_lease_held, lease_held, or_else};
use crate::budget::rows::{
    AiBudgetCounterRecord, AiBudgetReservation, AiBudgetReservationRecord,
    AiBudgetReservationState, StoredActual, as_stored_actual, counter_committed, counter_reserved,
    loaded_actual, parse_reservation_state, readable_counter_ids, readable_reservation,
    record_to_reservation, reservation_actual, reservation_amounts, reservation_counter_ids,
    reservation_reads, reservation_state_of, reservation_state_round_trip, reservation_state_text,
    reservation_states_are_spelled_so,
};
use crate::clock::{Duration, UtcTime, fresh_within};
use crate::digest::{
    Uuid, big_endian_bytes, digest_prefix, digest_uuid, lemma_u128_bytes_injective, push_bytes,
    push_text, sha256, sha256_digest, uuid_bytes, uuid_from_bytes,
};
use crate::error::{AiError, ErrorModel, OrmErrorCode, accepted_or, invalid_input, outcome, refusal};
use crate::principal::{
    PrincipalReference, ResolvedPrincipal, principal_identity, principal_kind_text,
    principal_subject_text, same_reference, validate_fresh_principal,
};
use crate::records::AiRunRecord;
use crate::text::{clone_text_option, lemma_between, same_text, text_option};
use vstd::prelude::*;
use vstd::utf8::encode_utf8;

verus! {

/// How a reservation is settled.
#[derive(Clone, Copy, Debug, PartialEq, Eq, Structural)]
pub enum AiBudgetReconciliationOutcome {
    Commit,
    ReleaseUnused,
    MarkUncertain,
}

/// One requested settlement.
#[derive(Debug, PartialEq, Eq)]
pub struct AiBudgetReconciliation {
    pub reservation_id: Uuid,
    pub attempt_id: Uuid,
    pub lease_generation: i64,
    pub actual: Option<AiBudgetAmounts>,
    pub cached_input_tokens: Option<u64>,
    pub outcome: AiBudgetReconciliationOutcome,
}

/// A settled reservation and where its capacity went.
#[derive(Debug, PartialEq, Eq)]
pub struct AiBudgetReconciliationResult {
    pub reservation: AiBudgetReservation,
    pub committed: AiBudgetAmounts,
    pub released: AiBudgetAmounts,
    pub held: AiBudgetAmounts,
}

/// The state that a settlement leads to.
pub open spec fn settled_state(outcome: AiBudgetReconciliationOutcome) -> AiBudgetReservationState {
    match outcome {
        AiBudgetReconciliationOutcome::Commit => AiBudgetReservationState::Committed,
        AiBudgetReconciliationOutcome::ReleaseUnused => AiBudgetReservationState::Released,
        AiBudgetReconciliationOutcome::MarkUncertain => AiBudgetReservationState::Uncertain,
    }
}

fn state_after(outcome: AiBudgetReconciliationOutcome) -> (state: AiBudgetReservationState)
    ensures
        state == settled_state(outcome),
{
    match outcome {
        AiBudgetReconciliationOutcome::Commit => AiBudgetReservationState::Committed,
        AiBudgetReconciliationOutcome::ReleaseUnused => AiBudgetReservationState::Released,
        AiBudgetReconciliationOutcome::MarkUncertain => AiBudgetReservationState::Uncertain,
    }
}

/// Refuses a settlement before any row is read: a stale principal, then an
/// unusable fence.
pub fn admit_reconciliation(
    principal: &ResolvedPrincipal,
    reconciliation: &AiBudgetReconciliation,
    now: UtcTime,
    maximum_principal_age: Duration,
) -> (result: Result<(), AiError>)
    requires
        principal.wf(),
        now.wf(),
    ensures
        refusal(result) == if !fresh_within(
            principal.resolved_at,
            principal.reference.expires_at,
            now,
            maximum_principal_age,
        ) {
            Some(ErrorModel::ReauthorizationFailed)
        } else if reconciliation.attempt_id == 0 || reconciliation.lease_generation <= 0 {
            Some(ErrorModel::InvalidInput("invalid budget reconciliation fence"@))
        } else {
            None
        },
{
    match validate_fresh_principal(principal, now, maximum_principal_age) {
        Ok(()) => {},
        Err(error) => return Err(error),
    }
    if reconciliation.attempt_id == 0 || reconciliation.lease_generation <= 0 {
        return Err(invalid_input("invalid budget reconciliation fence"));
    }
    Ok(())
}

/// Whether the run is the running, leased attempt that both the reservation
/// and the settlement name.
pub open spec fn reconciliation_fenced(
    run: AiRunRecord,
    reservation: AiBudgetReservationRecord,
    reference: PrincipalReference,
    reconciliation: AiBudgetReconciliation,
    now: UtcTime,
) -> bool {
    &&& run.id == reservation.run_id
    &&& run.session_id == reservation.session_id
    &&& run.principal_reference matches Some(stored) && stored@ == reference@
    &&& run.state@ == "running"@
    &&& run.attempt_id == Some(reconciliation.attempt_id)
    &&& reservation.attempt_id == reconciliation.attempt_id
    &&& run.lease_generation == reconciliation.lease_generation
    &&& reservation.lease_generation == reconciliation.lease_generation
    &&& lease_held(run, now.second())
}

/// Accepts exactly the current fence of the settlement.
pub fn validate_reconciliation_fence(
    run: &AiRunRecord,
    reservation: &AiBudgetReservationRecord,
    principal_reference: &PrincipalReference,
    reconciliation: &AiBudgetReconciliation,
    now: UtcTime,
) -> (result: Result<(), AiError>)
    requires
        now.wf(),
    ensures
        outcome(result) == if run.principal_reference is None {
            Err::<(), ErrorModel>(ErrorModel::PersistenceFailed)
        } else {
            accepted_or(
                reconciliation_fenced(
                    *run,
                    *reservation,
                    *principal_reference,
                    *reconciliation,
                    now,
                ),
                ErrorModel::Conflict,
            )
        },
{
    let same_principal: bool = match &run.principal_reference {
        Some(stored) => same_reference(stored, principal_reference),
        None => return Err(AiError::PersistenceFailed),
    };
    let same_attempt: bool = match run.attempt_id {
        Some(attempt) => attempt == reconciliation.attempt_id,
        None => false,
    };
    if run.id == reservation.run_id && run.session_id == reservation.session_id && same_principal
        && same_text(run.state.as_str(), "running") && same_attempt && reservation.attempt_id
        == reconciliation.attempt_id && run.lease_generation == reconciliation.lease_generation
        && reservation.lease_generation == reconciliation.lease_generation && is_lease_held(
        run,
        now.unix_timestamp(),
    ) {
        Ok(())
    } else {
        Err(AiError::Conflict)
    }
}

/// Where the capacity of a reservation in `state` went.
pub open spec fn capacity_split(
    state: AiBudgetReservationState,
    reserved: AiBudgetAmounts,
    actual: Option<AiBudgetAmounts>,
) -> Option<(AiBudgetAmounts, AiBudgetAmounts, AiBudgetAmounts)> {
    match state {
        AiBudgetReservationState::Committed => match actual {
            Some(used) => Some((used, excess(reserved, used), zero_amounts())),
            None => None,
        },
        AiBudgetReservationState::Released | AiBudgetReservationState::Expired => Some(
            (zero_amounts(), reserved, zero_amounts()),
        ),
        AiBudgetReservationState::Uncertain | AiBudgetReservationState::Reserved => Some(
            (zero_amounts(), zero_amounts(), reserved),
        ),
    }
}

/// Whether the row has a readable settlement.
pub open spec fn readable_settlement(record: AiBudgetReservationRecord) -> bool {
    &&& readable_reservation(record)
    &&& capacity_split(
        reservation_state_of(record.state@)->0,
        as_amounts(record.reserved),
        loaded_actual(record.actual)->Ok_0,
    ) is Some
}

/// Whether `settlement` is what the row says.
pub open spec fn settlement_reads(
    record: AiBudgetReservationRecord,
    settlement: AiBudgetReconciliationResult,
) -> bool {
    &&& reservation_reads(record, settlement.reservation)
    &&& Some((settlement.committed, settlement.released, settlement.held)) == capacity_split(
        reservation_state_of(record.state@)->0,
        as_amounts(record.reserved),
        loaded_actual(record.actual)->Ok_0,
    )
}

/// Reads the settlement of a reservation row; a committed row without usage is
/// malformed.
pub fn record_to_reconciliation_result(record: &AiBudgetReservationRecord) -> (result: Result<
    AiBudgetReconciliationResult,
    AiError,
>)
    ensures
        match result {
            Ok(settlement) => readable_settlement(*record) && settlement_reads(*record, settlement),
            Err(error) => !readable_settlement(*record) && error@ == ErrorModel::PersistenceFailed,
        },
{
    let reservation: AiBudgetReservation = match record_to_reservation(record) {
        Ok(reservation) => reservation,
        Err(error) => return Err(error),
    };
    let reserved: AiBudgetAmounts = reservation.reserved;
    let none = AiBudgetAmounts::default();
    let (committed, released, held): (AiBudgetAmounts, AiBudgetAmounts, AiBudgetAmounts) =
        match reservation.state {
        AiBudgetReservationState::Committed => match reservation.actual {
            Some(actual) => (actual, saturating_sub(reserved, actual), none),
            None => return Err(AiError::PersistenceFailed),
        },
        AiBudgetReservationState::Released | AiBudgetReservationState::Expired => (
            none,
            reserved,
            none,
        ),
        AiBudgetReservationState::Uncertain | AiBudgetReservationState::Reserved => (
            none,
            none,
            reserved,
        ),
    };
    Ok(AiBudgetReconciliationResult { reservation, committed, released, held })
}

/// What an already settled row answers to the same settlement: `None` where
/// the row is not in the state the settlement leads to, otherwise its refusal,
/// if any.
pub open spec fn replay_refusal(
    record: AiBudgetReservationRecord,
    state: AiBudgetReservationState,
    reconciliation: AiBudgetReconciliation,
) -> Option<Option<ErrorModel>> {
    if state != settled_state(reconciliation.outcome) {
        None
    } else {
        Some(
            match loaded_actual(record.actual) {
                Err(error) => Some(error),
                Ok(actual) => if actual != reconciliation.actual {
                    Some(ErrorModel::Conflict)
                } else {
                    match reconciliation.cached_input_tokens {
                        Some(cached) if cached > i64::MAX => Some(
                            ErrorModel::InvalidInput("cached input exceeds storage"@),
                        ),
                        _ => if record.actual_cached_input_tokens != stored_cached(
                            reconciliation.cached_input_tokens,
                        ) {
                            Some(ErrorModel::Conflict)
                        } else if !readable_settlement(record) {
                            Some(ErrorModel::PersistenceFailed)
                        } else {
                            None
                        },
                    }
                },
            },
        )
    }
}

/// Stored form of the cached-token count.
pub open spec fn stored_cached(cached: Option<u64>) -> Option<i64> {
    match cached {
        Some(value) => Some(value as i64),
        None => None,
    }
}

/// Answers a repeated settlement from the settled row.
pub fn match_existing_reconciliation(
    record: &AiBudgetReservationRecord,
    state: AiBudgetReservationState,
    reconciliation: &AiBudgetReconciliation,
) -> (result: Option<Result<AiBudgetReconciliationResult, AiError>>)
    ensures
        match result {
            None => replay_refusal(*record, state, *reconciliation) is None,
            Some(answer) => replay_refusal(*record, state, *reconciliation) == Some(refusal(answer))
                && (answer matches Ok(settlement) ==> settlement_reads(*record, settlement)),
        },
{
    if state != state_after(reconciliation.outcome) {
        return None;
    }
    let actual: Option<AiBudgetAmounts> = match reservation_actual(record) {
        Ok(actual) => actual,
        Err(error) => return Some(Err(error)),
    };
    let same_actual: bool = match (actual, reconciliation.actual) {
        (Some(stored), Some(given)) => stored == given,
        (None, None) => true,
        _ => false,
    };
    if !same_actual {
        return Some(Err(AiError::Conflict));
    }
    let same_cached: bool = match (
        record.actual_cached_input_tokens,
        reconciliation.cached_input_tokens,
    ) {
        (stored, Some(given)) => {
            if given > i64::MAX as u64 {
                return Some(Err(invalid_input("cached input exceeds storage")));
            }
            match stored {
                Some(stored) => stored == given as i64,
                None => false,
            }
        },
        (stored, None) => stored.is_none(),
    };
    if !same_cached {
        return Some(Err(AiError::Conflict));
    }
    Some(record_to_reconciliation_result(record))
}

/// Why the reported usage does not fit the settlement.
pub open spec fn usage_refusal(
    reserved: AiBudgetAmounts,
    actual: Option<AiBudgetAmounts>,
    cached: Option<u64>,
    outcome: AiBudgetReconciliationOutcome,
) -> Option<ErrorModel> {
    match outcome {
        AiBudgetReconciliationOutcome::Commit => match actual {
            None => Some(ErrorModel::InvalidInput("committed budget usage is required"@)),
            Some(used) => if used.runs != reserved.runs {
                Some(
                    ErrorModel::InvalidInput("actual budget run count does not match reservation"@),
                )
            } else {
                match cached {
                    None => Some(
                        ErrorModel::InvalidInput("committed cached-token usage is required"@),
                    ),
                    Some(tokens) => if tokens > used.input_tokens {
                        Some(ErrorModel::InvalidInput("cached input exceeds total input usage"@))
                    } else if !storable(used) {
                        Some(ErrorModel::InvalidConfiguration("AI budget amount exceeds storage"@))
                    } else {
                        None
                    },
                }
            },
        },
        AiBudgetReconciliationOutcome::ReleaseUnused => if actual is Some || cached is Some {
            Some(ErrorModel::InvalidInput("unused budget release cannot include usage"@))
        } else {
            None
        },
        AiBudgetReconciliationOutcome::MarkUncertain => match actual {
            Some(used) => if used.runs != reserved.runs {
                Some(
                    ErrorModel::InvalidInput(
                        "uncertain budget run count does not match reservation"@,
                    ),
                )
            } else if cached is Some && cached->0 > used.input_tokens {
                Some(ErrorModel::InvalidInput("cached input exceeds uncertain input usage"@))
            } else if !storable(used) {
                Some(ErrorModel::InvalidConfiguration("AI budget amount exceeds storage"@))
            } else {
                None
            },
            None => if cached is Some {
                Some(ErrorModel::InvalidInput("cached input requires uncertain usage"@))
            } else {
                None
            },
        },
    }
}

/// Checks the reported usage of a settlement and returns it.
pub fn validate_reconciliation_actual(
    reserved: AiBudgetAmounts,
    actual: Option<AiBudgetAmounts>,
    cached_input_tokens: Option<u64>,
    outcome: AiBudgetReconciliationOutcome,
) -> (result: Result<Option<AiBudgetAmounts>, AiError>)
    ensures
        refusal(result) == usage_refusal(reserved, actual, cached_input_tokens, outcome),
        result matches Ok(value) ==> value == actual,
{
    match outcome {
        AiBudgetReconciliationOutcome::Commit => {
            let used: AiBudgetAmounts = match actual {
                Some(used) => used,
                None => return Err(invalid_input("committed budget usage is required")),
            };
            if used.runs != reserved.runs {
                return Err(invalid_input("actual budget run count does not match reservation"));
            }
            let cached: u64 = match cached_input_tokens {
                Some(cached) => cached,
                None => return Err(invalid_input("committed cached-token usage is required")),
            };
            if cached > used.input_tokens {
                return Err(invalid_input("cached input exceeds total input usage"));
            }
            match stored_amounts(used) {
                Ok(_) => Ok(actual),
                Err(error) => Err(error),
            }
        },
        AiBudgetReconciliationOutcome::ReleaseUnused => {
            if actual.is_some() || cached_input_tokens.is_some() {
                return Err(invalid_input("unused budget release cannot include usage"));
            }
            Ok(None)
        },
        AiBudgetReconciliationOutcome::MarkUncertain => {
            match actual {
                Some(used) => {
                    if used.runs != reserved.runs {
                        return Err(
                            invalid_input("uncertain budget run count does not match reservation"),
                        );
                    }
                    match cached_input_tokens {
                        Some(cached) => {
                            if cached > used.input_tokens {
                                return Err(
                                    invalid_input("cached input exceeds uncertain input usage"),
                                );
                            }
                        },
                        None => {},
                    }
                    match stored_amounts(used) {
                        Ok(_) => Ok(actual),
                        Err(error) => Err(error),
                    }
                },
                None => {
                    if cached_input_tokens.is_some() {
                        return Err(invalid_input("cached input requires uncertain usage"));
                    }
                    Ok(None)
                },
            }
        },
    }
}

/// Replacement of one counter's amounts, fenced by its row version.
#[derive(Clone, Copy, Debug, PartialEq, Eq, Structural)]
pub struct CounterUpdate {
    pub counter_id: Uuid,
    pub expected_row_version: i64,
    pub reserved: StoredAmounts,
    pub committed: StoredAmounts,
}

/// Why settling `reserved` against the counter fails.
pub open spec fn counter_settlement_refusal(
    counter: Option<AiBudgetCounterRecord>,
    reserved: AiBudgetAmounts,
    actual: Option<AiBudgetAmounts>,
) -> Option<ErrorModel> {
    match counter {
        None => Some(ErrorModel::PersistenceFailed),
        Some(counter) => match (loaded(counter.reserved), loaded(counter.committed)) {
            (Ok(held), Ok(settled)) => match subtracted(held, reserved) {
                Err(error) => Some(error),
                Ok(_) => match actual {
                    None => None,
                    Some(used) => match added(settled, used) {
                        Err(error) => Some(error),
                        Ok(_) => None,
                    },
                },
            },
            _ => Some(ErrorModel::PersistenceFailed),
        },
    }
}

/// Whether `update` takes exactly the reserved amounts off the counter and
/// adds exactly the used amounts to what it committed.
pub open spec fn counter_settled(
    counter: Option<AiBudgetCounterRecord>,
    reserved: AiBudgetAmounts,
    actual: Option<AiBudgetAmounts>,
    update: CounterUpdate,
) -> bool {
    &&& counter matches Some(counter)
    &&& update.counter_id == counter.id
    &&& update.expected_row_version == counter.row_version
    &&& update.reserved == as_stored(difference(as_amounts(counter.reserved), reserved))
    &&& update.committed == match actual {
        Some(used) => as_stored(sum(as_amounts(counter.committed), used)),
        None => counter.committed,
    }
}

/// Settles one counter.
pub fn settle_counter(
    counter: &Option<AiBudgetCounterRecord>,
    reserved: AiBudgetAmounts,
    actual: Option<AiBudgetAmounts>,
) -> (result: Result<CounterUpdate, AiError>)
    ensures
        refusal(result) == counter_settlement_refusal(*counter, reserved, actual),
        result matches Ok(update) ==> counter_settled(
            *counter,
            reserved,
            actual,
            update,
        ),
{
    let counter: &AiBudgetCounterRecord = match counter {
        Some(counter) => counter,
        None => return Err(AiError::PersistenceFailed),
    };
    let held: AiBudgetAmounts = match counter_reserved(counter) {
        Ok(amounts) => amounts,
        Err(error) => return Err(error),
    };
    let settled: AiBudgetAmounts = match counter_committed(counter) {
        Ok(amounts) => amounts,
        Err(error) => return Err(error),
    };
    let next_reserved: AiBudgetAmounts = match checked_sub(held, reserved) {
        Ok(amounts) => amounts,
        Err(error) => return Err(error),
    };
    let next_committed: AiBudgetAmounts = match actual {
        Some(used) => match checked_add(settled, used) {
            Ok(amounts) => amounts,
            Err(error) => return Err(error),
        },
        None => settled,
    };
    let reserved_columns: StoredAmounts = match store_amounts(next_reserved) {
        Ok(stored) => stored,
        Err(_) => return Err(AiError::PersistenceFailed),
    };
    let committed_columns: StoredAmounts = match store_amounts(next_committed) {
        Ok(stored) => stored,
        Err(_) => return Err(AiError::PersistenceFailed),
    };
    Ok(
        CounterUpdate {
            counter_id: counter.id,
            expected_row_version: counter.row_version,
            reserved: reserved_columns,
            committed: committed_columns,
        },
    )
}

/// The usage entry that a commit appends.
#[derive(Debug, PartialEq, Eq)]
pub struct NewUsageEntry {
    pub id: Uuid,
    pub budget_reservation_id: Uuid,
    pub scope_kind: String,
    pub scope_id: String,
    pub tenant_id: Option<String>,
    pub principal_kind: String,
    pub principal_subject: String,
    pub session_id: Uuid,
    pub run_id: Uuid,
    pub provider_kind: String,
    pub provider_model: String,
    pub input_tokens: i64,
    pub cached_input_tokens: i64,
    pub output_tokens: i64,
    pub tool_units: i64,
    pub image_units: i64,
    pub cost_microunits: i64,
}

/// Settlement columns of a reservation, fenced by its row version.
#[derive(Debug, PartialEq, Eq)]
pub struct ReservationUpdate {
    pub reservation_id: Uuid,
    pub expected_row_version: i64,
    pub actual: StoredActual,
    pub actual_cached_input_tokens: Option<i64>,
    pub state: String,
    pub reconciled_at: i64,
}

/// Every row that one settlement reads; `counters` holds, in order, the
/// counter for each identifier in the reservation's counter list.
#[derive(Debug, PartialEq, Eq)]
pub struct ReconciliationSnapshot {
    pub record: Option<AiBudgetReservationRecord>,
    pub run: Option<AiRunRecord>,
    pub counters: Vec<Option<AiBudgetCounterRecord>>,
}

/// What the host does to settle a reservation.
#[derive(Debug, PartialEq, Eq)]
pub enum ReconciliationStep {
    /// The same settlement was recorded before; nothing is written.
    Replay(AiBudgetReconciliationResult),
    /// Write the counters, the usage entry, and the reservation in this order
    /// and in one transaction.
    Write {
        counters: Vec<CounterUpdate>,
        usage: Option<NewUsageEntry>,
        reservation: ReservationUpdate,
    },
}

/// Whether the usage entry records the committed amounts of the reservation.
pub open spec fn usage_recorded(
    entry: NewUsageEntry,
    usage_id: Uuid,
    record: AiBudgetReservationRecord,
    used: AiBudgetAmounts,
    cached: u64,
) -> bool {
    &&& entry.id == usage_id
    &&& entry.budget_reservation_id == record.id
    &&& entry.scope_kind == record.scope_kind
    &&& entry.scope_id == record.scope_id
    &&& entry.tenant_id == record.tenant_id
    &&& entry.principal_kind == record.principal_kind
    &&& entry.principal_subject == record.principal_subject
    &&& entry.session_id == record.session_id
    &&& entry.run_id == record.run_id
    &&& entry.provider_kind == record.provider_kind
    &&& entry.provider_model == record.provider_model
    &&& entry.input_tokens == used.input_tokens
    &&& entry.cached_input_tokens == cached
    &&& entry.output_tokens == used.output_tokens
    &&& entry.tool_units == used.tool_units
    &&& entry.image_units == used.image_units
    &&& entry.cost_microunits == used.cost_microunits
}

/// Builds the usage entry of a commit.
pub fn usage_entry(
    usage_id: Uuid,
    record: &AiBudgetReservationRecord,
    used: AiBudgetAmounts,
    cached: u64,
) -> (entry: NewUsageEntry)
    requires
        storable(used),
        cached <= used.input_tokens,
    ensures
        usage_recorded(entry, usage_id, *record, used, cached),
{
    NewUsageEntry {
        id: usage_id,
        budget_reservation_id: record.id,
        scope_kind: record.scope_kind.clone(),
        scope_id: record.scope_id.clone(),
        tenant_id: clone_text_option(&record.tenant_id),
        principal_kind: record.principal_kind.clone(),
        principal_subject: record.principal_subject.clone(),
        session_id: record.session_id,
        run_id: record.run_id,
        provider_kind: record.provider_kind.clone(),
        provider_model: record.provider_model.clone(),
        input_tokens: used.input_tokens as i64,
        cached_input_tokens: cached as i64,
        output_tokens: used.output_tokens as i64,
        tool_units: used.tool_units as i64,
        image_units: used.image_units as i64,
        cost_microunits: used.cost_microunits as i64,
    }
}

/// Whether the reservation columns record the settlement.
pub open spec fn settlement_recorded(
    update: ReservationUpdate,
    record: AiBudgetReservationRecord,
    actual: Option<AiBudgetAmounts>,
    cached: Option<u64>,
    outcome: AiBudgetReconciliationOutcome,
    second: int,
) -> bool {
    &&& update.reservation_id == record.id
    &&& update.expected_row_version == record.row_version
    &&& update.actual == as_stored_actual(actual)
    &&& update.actual_cached_input_tokens == stored_cached(cached)
    &&& update.state@ == reservation_state_text(settled_state(outcome))
    &&& update.reconciled_at == second
}

fn settlement_columns(
    record: &AiBudgetReservationRecord,
    actual: Option<AiBudgetAmounts>,
    cached: Option<u64>,
    outcome: AiBudgetReconciliationOutcome,
    second: i64,
) -> (update: ReservationUpdate)
    requires
        actual matches Some(used) ==> storable(used),
        cached matches Some(tokens) ==> tokens <= i64::MAX,
    ensures
        settlement_recorded(update, *record, actual, cached, outcome, second as int),
{
    let stored = match actual {
        Some(used) => StoredActual {
            input_tokens: Some(used.input_tokens as i64),
            output_tokens: Some(used.output_tokens as i64),
            tool_units: Some(used.tool_units as i64),
            image_units: Some(used.image_units as i64),
            cost_microunits: Some(used.cost_microunits as i64),
            runs: Some(used.runs as i64),
        },
        None => StoredActual {
            input_tokens: None,
            output_tokens: None,
            tool_units: None,
            image_units: None,
            cost_microunits: None,
            runs: None,
        },
    };
    let cached_column: Option<i64> = match cached {
        Some(tokens) => Some(tokens as i64),
        None => None,
    };
    let state = match outcome {
        AiBudgetReconciliationOutcome::Commit => "committed",
        AiBudgetReconciliationOutcome::ReleaseUnused => "released",
        AiBudgetReconciliationOutcome::MarkUncertain => "uncertain",
    };
    ReservationUpdate {
        reservation_id: record.id,
        expected_row_version: record.row_version,
        actual: stored,
        actual_cached_input_tokens: cached_column,
        state: state.to_owned(),
        reconciled_at: second,
    }
}

/// The refusal of the first of the first `count` counters that refuses.
pub open spec fn first_settlement_refusal(
    counters: Seq<Option<AiBudgetCounterRecord>>,
    reserved: AiBudgetAmounts,
    actual: Option<AiBudgetAmounts>,
    count: nat,
) -> Option<ErrorModel>
    decreases count,
{
    if count == 0 {
        None
    } else {
        or_else(
            first_settlement_refusal(counters, reserved, actual, (count - 1) as nat),
            counter_settlement_refusal(counters[count - 1], reserved, actual),
        )
    }
}

/// Whether the row belongs to the principal.
pub open spec fn owned_by(
    record: AiBudgetReservationRecord,
    principal: ResolvedPrincipal,
) -> bool {
    &&& record.principal_kind@ == principal_kind_text(principal.principal)
    &&& record.principal_subject@ == principal_subject_text(principal.principal)
}

/// Whether the row answers the settlement as a replay.
pub open spec fn is_replay(
    record: AiBudgetReservationRecord,
    reconciliation: AiBudgetReconciliation,
) -> bool {
    reservation_state_of(record.state@) == Some(settled_state(reconciliation.outcome))
}

/// Why the rows refuse a settlement, in the order of checks.
pub open spec fn reconciliation_refusal(
    snapshot: ReconciliationSnapshot,
    principal: ResolvedPrincipal,
    reconciliation: AiBudgetReconciliation,
    now: UtcTime,
) -> Option<ErrorModel> {
    if snapshot.record is None {
        Some(ErrorModel::NotFound)
    } else {
        let record = snapshot.record->0;
        if !owned_by(record, principal) {
            Some(ErrorModel::NotFound)
        } else if reservation_state_of(record.state@) is None {
            Some(ErrorModel::PersistenceFailed)
        } else {
            let state = reservation_state_of(record.state@)->0;
            if is_replay(record, reconciliation) {
                replay_refusal(record, state, reconciliation)->0
            } else if !(state is Reserved || state is Uncertain) {
                Some(ErrorModel::Conflict)
            } else if state is Uncertain && reconciliation.outcome is ReleaseUnused {
                Some(ErrorModel::Conflict)
            } else if snapshot.run is None {
                Some(ErrorModel::Conflict)
            } else if snapshot.run->0.principal_reference is None {
                Some(ErrorModel::PersistenceFailed)
            } else if !reconciliation_fenced(
                snapshot.run->0,
                record,
                principal.reference,
                reconciliation,
                now,
            ) {
                Some(ErrorModel::Conflict)
            } else if !non_negative(record.reserved) {
                Some(ErrorModel::PersistenceFailed)
            } else {
                let reserved = as_amounts(record.reserved);
                or_else(
                    usage_refusal(
                        reserved,
                        reconciliation.actual,
                        reconciliation.cached_input_tokens,
                        reconciliation.outcome,
                    ),
                    if !readable_counter_ids(record.budget_counter_ids) {
                        Some(ErrorModel::PersistenceFailed)
                    } else if reconciliation.outcome is MarkUncertain {
                        None
                    } else {
                        first_settlement_refusal(
                            snapshot.counters@,
                            reserved,
                            reconciliation.actual,
                            record.budget_counter_ids->0@.len(),
                        )
                    },
                )
            }
        }
    }
}

/// Decides one settlement from the rows it depends on.
///
/// `usage_id` is the identity that a new usage entry gets. Counters change
/// only on a commit or a release, and on each by exactly the reserved amounts.
#[verifier::rlimit(40)]
pub fn reconcile_once(
    snapshot: &ReconciliationSnapshot,
    principal: &ResolvedPrincipal,
    reconciliation: &AiBudgetReconciliation,
    now: UtcTime,
    usage_id: Uuid,
) -> (result: Result<ReconciliationStep, AiError>)
    requires
        now.wf(),
        (snapshot.record matches Some(record) && record.budget_counter_ids matches Some(ids))
            ==> snapshot.counters@.len() == snapshot.record->0.budget_counter_ids->0@.len(),
    ensures
        refusal(result) == reconciliation_refusal(*snapshot, *principal, *reconciliation, now),
        match result {
            Ok(ReconciliationStep::Replay(settlement)) => is_replay(
                snapshot.record->0,
                *reconciliation,
            ) && settlement_reads(snapshot.record->0, settlement),
            Ok(ReconciliationStep::Write { counters, usage, reservation }) => {
                let record = snapshot.record->0;
                let reserved = as_amounts(record.reserved);
                &&& !is_replay(record, *reconciliation)
                &&& counters@.len() == if reconciliation.outcome is MarkUncertain {
                    0
                } else {
                    snapshot.counters@.len()
                }
                &&& forall|k: int|
                    0 <= k < counters@.len() ==> counter_settled(
                        snapshot.counters@[k],
                        reserved,
                        reconciliation.actual,
                        #[trigger] counters@[k],
                    )
                &&& usage is Some <==> reconciliation.outcome is Commit
                &&& usage matches Some(entry) ==> usage_recorded(
                    entry,
                    usage_id,
                    record,
                    reconciliation.actual->0,
                    reconciliation.cached_input_tokens->0,
                )
                &&& settlement_recorded(
                    reservation,
                    record,
                    reconciliation.actual,
                    reconciliation.cached_input_tokens,
                    reconciliation.outcome,
                    now.second(),
                )
            },
            Err(_) => true,
        },
{
    let record: &AiBudgetReservationRecord = match &snapshot.record {
        Some(record) => record,
        None => return Err(AiError::NotFound),
    };
    let (principal_kind, principal_subject) = principal_identity(&principal.principal);
    if !same_text(record.principal_kind.as_str(), principal_kind.as_str()) || !same_text(
        record.principal_subject.as_str(),
        principal_subject.as_str(),
    ) {
        return Err(AiError::NotFound);
    }
    let state: AiBudgetReservationState = match parse_reservation_state(record.state.as_str()) {
        Ok(state) => state,
        Err(error) => return Err(error),
    };
    match match_existing_reconciliation(record, state, reconciliation) {
        Some(Ok(settlement)) => return Ok(ReconciliationStep::Replay(settlement)),
        Some(Err(error)) => return Err(error),
        None => {},
    }
    match state {
        AiBudgetReservationState::Reserved => {},
        AiBudgetReservationState::Uncertain => match reconciliation.outcome {
            AiBudgetReconciliationOutcome::ReleaseUnused => return Err(AiError::Conflict),
            _ => {},
        },
        _ => return Err(AiError::Conflict),
    }
    let run: &AiRunRecord = match &snapshot.run {
        Some(run) => run,
        None => return Err(AiError::Conflict),
    };
    match validate_reconciliation_fence(run, record, &principal.reference, reconciliation, now) {
        Ok(()) => {},
        Err(error) => return Err(error),
    }
    let reserved: AiBudgetAmounts = match reservation_amounts(record) {
        Ok(amounts) => amounts,
        Err(error) => return Err(error),
    };
    let actual: Option<AiBudgetAmounts> = match validate_reconciliation_actual(
        reserved,
        reconciliation.actual,
        reconciliation.cached_input_tokens,
        reconciliation.outcome,
    ) {
        Ok(actual) => actual,
        Err(error) => return Err(error),
    };
    let counter_ids: Vec<Uuid> = match reservation_counter_ids(record) {
        Ok(ids) => ids,
        Err(error) => return Err(error),
    };
    let mut counters: Vec<CounterUpdate> = Vec::new();
    let moves_capacity: bool = match reconciliation.outcome {
        AiBudgetReconciliationOutcome::MarkUncertain => false,
        _ => true,
    };
    if moves_capacity {
        let mut i: usize = 0;
        while i < counter_ids.len()
            invariant
                i <= counter_ids@.len(),
                counter_ids@.len() == snapshot.counters@.len(),
                counter_ids@.len() == record.budget_counter_ids->0@.len(),
                actual == reconciliation.actual,
                counters@.len() == i,
                first_settlement_refusal(snapshot.counters@, reserved, actual, i as nat) is None,
                reconciliation_refusal(*snapshot, *principal, *reconciliation, now)
                    == first_settlement_refusal(
                    snapshot.counters@,
                    reserved,
                    actual,
                    counter_ids@.len(),
                ),
                forall|k: int|
                    0 <= k < i ==> counter_settled(
                        snapshot.counters@[k],
                        reserved,
                        actual,
                        #[trigger] counters@[k],
                    ),
            decreases counter_ids@.len() - i,
        {
            match settle_counter(&snapshot.counters[i], reserved, actual) {
                Ok(update) => {
                    counters.push(update);
                },
                Err(error) => {
                    proof {
                        lemma_first_settlement_stays(
                            snapshot.counters@,
                            reserved,
                            actual,
                            (i + 1) as nat,
                            counter_ids@.len(),
                        );
                    }
                    return Err(error);
                },
            }
            i += 1;
        }
    }
    let second: i64 = now.unix_timestamp();
    let usage: Option<NewUsageEntry> = match (
        reconciliation.outcome,
        actual,
        reconciliation.cached_input_tokens,
    ) {
        (AiBudgetReconciliationOutcome::Commit, Some(used), Some(cached)) => Some(
            usage_entry(usage_id, record, used, cached),
        ),
        _ => None,
    };
    let reservation = settlement_columns(
        record,
        actual,
        reconciliation.cached_input_tokens,
        reconciliation.outcome,
        second,
    );
    Ok(ReconciliationStep::Write { counters, usage, reservation })
}

proof fn lemma_first_settlement_stays(
    counters: Seq<Option<AiBudgetCounterRecord>>,
    reserved: AiBudgetAmounts,
    actual: Option<AiBudgetAmounts>,
    known: nat,
    count: nat,
)
    requires
        known <= count,
        first_settlement_refusal(counters, reserved, actual, known) is Some,
    ensures
        first_settlement_refusal(counters, reserved, actual, count) == first_settlement_refusal(
            counters,
            reserved,
            actual,
            known,
        ),
    decreases count,
{
    if known < count {
        lemma_first_settlement_stays(counters, reserved, actual, known, (count - 1) as nat);
    }
}

/// The row that recording a settlement leaves behind.
pub open spec fn settled_record(
    record: AiBudgetReservationRecord,
    update: ReservationUpdate,
    row_version: i64,
) -> AiBudgetReservationRecord {
    AiBudgetReservationRecord {
        actual: update.actual,
        actual_cached_input_tokens: update.actual_cached_input_tokens,
        state: update.state,
        reconciled_at: Some(update.reconciled_at),
        row_version,
        ..record
    }
}

/// Settling is idempotent: against the row that a settlement recorded, the
/// same settlement by the same principal is a replay. It answers what the first
/// one did, which is what the written row reads as: the settlement, or a
/// persistence failure where the row was unreadable from the start.
pub proof fn settlement_replays(
    snapshot: ReconciliationSnapshot,
    principal: ResolvedPrincipal,
    reconciliation: AiBudgetReconciliation,
    now: UtcTime,
    update: ReservationUpdate,
    row_version: i64,
    later: ReconciliationSnapshot,
    later_now: UtcTime,
)
    requires
        reconciliation_refusal(snapshot, principal, reconciliation, now) is None,
        snapshot.record matches Some(record) && !is_replay(record, reconciliation),
        settlement_recorded(
            update,
            snapshot.record->0,
            reconciliation.actual,
            reconciliation.cached_input_tokens,
            reconciliation.outcome,
            now.second(),
        ),
        later.record == Some(settled_record(snapshot.record->0, update, row_version)),
    ensures
        is_replay(later.record->0, reconciliation),
        reconciliation_refusal(later, principal, reconciliation, later_now) == if readable_settlement(
            later.record->0,
        ) {
            None
        } else {
            Some(ErrorModel::PersistenceFailed)
        },
        readable_reservation(snapshot.record->0) ==> readable_settlement(later.record->0),
{
    reservation_state_round_trip(settled_state(reconciliation.outcome));
}

/// Uncertain capacity is held, never released: an uncertain row refuses a
/// release with a conflict, and keeps its whole reservation held.
pub proof fn uncertain_capacity_stays_held(
    snapshot: ReconciliationSnapshot,
    principal: ResolvedPrincipal,
    reconciliation: AiBudgetReconciliation,
    now: UtcTime,
)
    requires
        snapshot.record matches Some(record) && owned_by(record, principal)
            && reservation_state_of(record.state@) == Some(AiBudgetReservationState::Uncertain),
    ensures
        reconciliation.outcome is ReleaseUnused ==> reconciliation_refusal(
            snapshot,
            principal,
            reconciliation,
            now,
        ) == Some(ErrorModel::Conflict),
        capacity_split(
            AiBudgetReservationState::Uncertain,
            as_amounts(snapshot.record->0.reserved),
            loaded_actual(snapshot.record->0.actual)->Ok_0,
        ) == Some((zero_amounts(), zero_amounts(), as_amounts(snapshot.record->0.reserved))),
{
}

/// Releasing a reservation gives the counter back exactly what reserving it
/// took: settling the counter that a reservation wrote, without usage, restores
/// the reserved and committed amounts from before.
pub proof fn release_restores_counter(
    before: AiBudgetAmounts,
    settled: AiBudgetAmounts,
    estimate: AiBudgetAmounts,
    counter: AiBudgetCounterRecord,
    update: CounterUpdate,
)
    requires
        storable(before),
        storable(settled),
        added(before, estimate) is Ok,
        counter.reserved == as_stored(sum(before, estimate)),
        counter.committed == as_stored(settled),
        counter_settled(Some(counter), estimate, None, update),
    ensures
        counter_settlement_refusal(Some(counter), estimate, None) is None,
        loaded(update.reserved) == Ok::<AiBudgetAmounts, ErrorModel>(before),
        loaded(update.committed) == Ok::<AiBudgetAmounts, ErrorModel>(settled),
{
}

/// Committing a reservation moves exactly the used amounts to the committed
/// side and frees the whole reservation.
pub proof fn commit_moves_used_amounts(
    before: AiBudgetAmounts,
    settled: AiBudgetAmounts,
    estimate: AiBudgetAmounts,
    used: AiBudgetAmounts,
    counter: AiBudgetCounterRecord,
    update: CounterUpdate,
)
    requires
        storable(before),
        storable(settled),
        added(before, estimate) is Ok,
        added(settled, used) is Ok,
        counter.reserved == as_stored(sum(before, estimate)),
        counter.committed == as_stored(settled),
        counter_settled(Some(counter), estimate, Some(used), update),
    ensures
        loaded(update.reserved) == Ok::<AiBudgetAmounts, ErrorModel>(before),
        loaded(update.committed) == added(settled, used),
{
}

/// The message whose digest identifies the usage entry of a background
/// reservation.
pub open spec fn background_usage_message(reservation_id: Uuid) -> Seq<u8> {
    encode_utf8("graphql-orm-ai/background-usage/v1\0"@) + big_endian_bytes(
        reservation_id as nat,
        16,
    )
}

/// The identity of the usage entry that settles a background reservation: the
/// first sixteen bytes of the digest of the reservation's identity.
pub fn background_usage_identity(reservation_id: Uuid) -> (id: Uuid)
    ensures
        id == digest_uuid(sha256_digest(background_usage_message(reservation_id))),
{
    let mut message: Vec<u8> = Vec::new();
    push_text(&mut message, "graphql-orm-ai/background-usage/v1\0");
    let bytes = uuid_bytes(reservation_id);
    push_bytes(&mut message, bytes.as_slice());
    proof {
        assert(message@ =~= background_usage_message(reservation_id));
    }
    let digest = sha256(message.as_slice());
    uuid_from_bytes(digest_prefix(&digest))
}

/// Every write that commits an uncertain background reservation.
#[derive(Debug, PartialEq, Eq)]
pub struct BackgroundBudgetCommit {
    pub counters: Vec<CounterUpdate>,
    pub usage: NewUsageEntry,
    pub reservation: ReservationUpdate,
}

/// The store failure that a counter causes while a background reservation is
/// committed.
pub open spec fn background_counter_fault(
    counter: Option<AiBudgetCounterRecord>,
    reserved: AiBudgetAmounts,
    actual: AiBudgetAmounts,
) -> Option<OrmErrorCode> {
    if counter is None {
        Some(OrmErrorCode::NotFound)
    } else if counter_settlement_refusal(counter, reserved, Some(actual)) is Some {
        Some(OrmErrorCode::InternalError)
    } else {
        None
    }
}

/// The failure of the first of the first `count` counters that fails.
pub open spec fn first_background_fault(
    counters: Seq<Option<AiBudgetCounterRecord>>,
    reserved: AiBudgetAmounts,
    actual: AiBudgetAmounts,
    count: nat,
) -> Option<OrmErrorCode>
    decreases count,
{
    if count == 0 {
        None
    } else {
        let earlier = first_background_fault(counters, reserved, actual, (count - 1) as nat);
        if earlier is Some {
            earlier
        } else {
            background_counter_fault(counters[count - 1], reserved, actual)
        }
    }
}

/// Why an uncertain background reservation cannot be committed.
pub open spec fn background_commit_fault(
    record: AiBudgetReservationRecord,
    counters: Seq<Option<AiBudgetCounterRecord>>,
    actual: AiBudgetAmounts,
    cached: u64,
) -> Option<OrmErrorCode> {
    if reservation_state_of(record.state@) is None {
        Some(OrmErrorCode::InternalError)
    } else if !(reservation_state_of(record.state@)->0 is Uncertain) || record.reconciled_at is None {
        Some(OrmErrorCode::Conflict)
    } else if !non_negative(record.reserved) {
        Some(OrmErrorCode::InternalError)
    } else if usage_refusal(
        as_amounts(record.reserved),
        Some(actual),
        Some(cached),
        AiBudgetReconciliationOutcome::Commit,
    ) is Some {
        Some(OrmErrorCode::Conflict)
    } else if !readable_counter_ids(record.budget_counter_ids) {
        Some(OrmErrorCode::InternalError)
    } else {
        first_background_fault(
            counters,
            as_amounts(record.reserved),
            actual,
            record.budget_counter_ids->0@.len(),
        )
    }
}

/// Commits authoritative terminal usage for an already uncertain background
/// reservation.
///
/// The caller owns validation of the exact background submission graph and of
/// current authorization. `counters` holds, in order, the counter for each
/// identifier in the reservation's counter list.
#[verifier::rlimit(40)]
pub fn commit_uncertain_background_budget(
    record: &AiBudgetReservationRecord,
    counters: &Vec<Option<AiBudgetCounterRecord>>,
    actual: AiBudgetAmounts,
    cached_input_tokens: u64,
    now: UtcTime,
) -> (result: Result<BackgroundBudgetCommit, OrmErrorCode>)
    requires
        now.wf(),
        record.budget_counter_ids matches Some(ids) ==> counters@.len() == ids@.len(),
    ensures
        match result {
            Ok(commit) => {
                let reserved = as_amounts(record.reserved);
                &&& background_commit_fault(*record, counters@, actual, cached_input_tokens) is None
                &&& commit.counters@.len() == counters@.len()
                &&& forall|k: int|
                    0 <= k < counters@.len() ==> counter_settled(
                        counters@[k],
                        reserved,
                        Some(actual),
                        #[trigger] commit.counters@[k],
                    )
                &&& usage_recorded(
                    commit.usage,
                    digest_uuid(sha256_digest(background_usage_message(record.id))) as u128,
                    *record,
                    actual,
                    cached_input_tokens,
                )
                &&& settlement_recorded(
                    commit.reservation,
                    *record,
                    Some(actual),
                    Some(cached_input_tokens),
                    AiBudgetReconciliationOutcome::Commit,
                    now.second(),
                )
            },
            Err(code) => background_commit_fault(*record, counters@, actual, cached_input_tokens)
                == Some(code),
        },
{
    match parse_reservation_state(record.state.as_str()) {
        Ok(AiBudgetReservationState::Uncertain) => {},
        Ok(_) => return Err(OrmErrorCode::Conflict),
        Err(_) => return Err(OrmErrorCode::InternalError),
    }
    if record.reconciled_at.is_none() {
        return Err(OrmErrorCode::Conflict);
    }
    let reserved: AiBudgetAmounts = match reservation_amounts(record) {
        Ok(amounts) => amounts,
        Err(_) => return Err(OrmErrorCode::InternalError),
    };
    match validate_reconciliation_actual(
        reserved,
        Some(actual),
        Some(cached_input_tokens),
        AiBudgetReconciliationOutcome::Commit,
    ) {
        Ok(_) => {},
        Err(_) => return Err(OrmErrorCode::Conflict),
    }
    let counter_ids: Vec<Uuid> = match reservation_counter_ids(record) {
        Ok(ids) => ids,
        Err(_) => return Err(OrmErrorCode::InternalError),
    };
    let mut updates: Vec<CounterUpdate> = Vec::new();
    let mut i: usize = 0;
    while i < counter_ids.len()
        invariant
            i <= counter_ids@.len(),
            counter_ids@.len() == counters@.len(),
            updates@.len() == i,
            first_background_fault(counters@, reserved, actual, i as nat) is None,
            background_commit_fault(*record, counters@, actual, cached_input_tokens)
                == first_background_fault(counters@, reserved, actual, counter_ids@.len()),
            forall|k: int|
                0 <= k < i ==> counter_settled(
                        counters@[k],
                    reserved,
                    Some(actual),
                    #[trigger] updates@[k],
                ),
        decreases counter_ids@.len() - i,
    {
        if counters[i].is_none() {
            proof {
                lemma_first_background_stays(
                    counters@,
                    reserved,
                    actual,
                    (i + 1) as nat,
                    counter_ids@.len(),
                );
            }
            return Err(OrmErrorCode::NotFound);
        }
        match settle_counter(&counters[i], reserved, Some(actual)) {
            Ok(update) => {
                updates.push(update);
            },
            Err(_) => {
                proof {
                    lemma_first_background_stays(
                        counters@,
                        reserved,
                        actual,
                        (i + 1) as nat,
                        counter_ids@.len(),
                    );
                }
                return Err(OrmErrorCode::InternalError);
            },
        }
        i += 1;
    }
    let usage_id: Uuid = background_usage_identity(record.id);
    let usage = usage_entry(usage_id, record, actual, cached_input_tokens);
    let reservation = settlement_columns(
        record,
        Some(actual),
        Some(cached_input_tokens),
        AiBudgetReconciliationOutcome::Commit,
        now.unix_timestamp(),
    );
    Ok(BackgroundBudgetCommit { counters: updates, usage, reservation })
}

proof fn lemma_first_background_stays(
    counters: Seq<Option<AiBudgetCounterRecord>>,
    reserved: AiBudgetAmounts,
    actual: AiBudgetAmounts,
    known: nat,
    count: nat,
)
    requires
        known <= count,
        first_background_fault(counters, reserved, actual, known) is Some,
    ensures
        first_background_fault(counters, reserved, actual, count) == first_background_fault(
            counters,
            reserved,
            actual,
            known,
        ),
    decreases count,
{
    if known < count {
        lemma_first_background_stays(counters, reserved, actual, known, (count - 1) as nat);
    }
}

/// Each outcome leads to its own state.
pub proof fn outcomes_lead_to_their_states(outcome: AiBudgetReconciliationOutcome)
    ensures
        settled_state(outcome) is Committed <==> outcome is Commit,
        settled_state(outcome) is Released <==> outcome is ReleaseUnused,
        settled_state(outcome) is Uncertain <==> outcome is MarkUncertain,
{
}

/// A settlement's fence is current exactly where run, reservation, and
/// settlement name one attempt under one generation, and that attempt is
/// running for the principal on a lease beyond now.
pub proof fn settlements_need_the_running_attempt(
    run: AiRunRecord,
    reservation: AiBudgetReservationRecord,
    reference: PrincipalReference,
    reconciliation: AiBudgetReconciliation,
    now: UtcTime,
)
    ensures
        reconciliation_fenced(run, reservation, reference, reconciliation, now) <==> {
            &&& run.id == reservation.run_id
            &&& run.session_id == reservation.session_id
            &&& run.principal_reference is Some && run.principal_reference->0@ == reference@
            &&& run.state@ == "running"@
            &&& run.attempt_id is Some && run.attempt_id->0 == reservation.attempt_id
            &&& reservation.attempt_id == reconciliation.attempt_id
            &&& run.lease_generation == reservation.lease_generation
            &&& reservation.lease_generation == reconciliation.lease_generation
            &&& run.lease_owner is Some && run.lease_owner->0@.len() > 0
            &&& run.lease_expires_at is Some && run.lease_expires_at->0 > now.second()
        },
{
}

/// Every reserved unit is accounted for. A commit counts what was used and
/// gives back what was reserved beyond it; a release or an expiry gives all of
/// it back; and what is still reserved or uncertain is held in full.
pub proof fn capacity_is_accounted_for(
    state: AiBudgetReservationState,
    reserved: AiBudgetAmounts,
    actual: Option<AiBudgetAmounts>,
    k: int,
)
    requires
        0 <= k < 6,
    ensures
        capacity_split(state, reserved, actual) is None <==> state is Committed && actual is None,
        capacity_split(state, reserved, actual) matches Some((committed, released, held)) ==> {
            let (c, r, h) = (units(committed)[k], units(released)[k], units(held)[k]);
            match state {
                AiBudgetReservationState::Committed => {
                    &&& c == units(actual->0)[k]
                    &&& h == 0
                    &&& r == if units(reserved)[k] > c {
                        units(reserved)[k] - c
                    } else {
                        0
                    }
                },
                AiBudgetReservationState::Released | AiBudgetReservationState::Expired => c == 0
                    && h == 0 && r == units(reserved)[k],
                AiBudgetReservationState::Reserved | AiBudgetReservationState::Uncertain => c == 0
                    && r == 0 && h == units(reserved)[k],
            }
        },
{
    if actual is Some {
        subtraction_subtracts_every_unit(reserved, actual->0);
    }
    assert(units(zero_amounts())[k] == 0) by {
        let z = units(zero_amounts());
        assert(z[0] == 0 && z[1] == 0 && z[2] == 0 && z[3] == 0 && z[4] == 0 && z[5] == 0);
    }
}

/// A settled row answers a repeated settlement exactly where the repetition
/// reports the same usage and the same cached tokens; any other is a conflict.
pub proof fn repeated_settlements_repeat_their_usage(
    record: AiBudgetReservationRecord,
    state: AiBudgetReservationState,
    reconciliation: AiBudgetReconciliation,
)
    requires
        readable_settlement(record),
        reconciliation.cached_input_tokens is None || reconciliation.cached_input_tokens->0
            <= i64::MAX,
    ensures
        replay_refusal(record, state, reconciliation) is Some <==> match reconciliation.outcome {
            AiBudgetReconciliationOutcome::Commit => state is Committed,
            AiBudgetReconciliationOutcome::ReleaseUnused => state is Released,
            AiBudgetReconciliationOutcome::MarkUncertain => state is Uncertain,
        },
        replay_refusal(record, state, reconciliation) matches Some(answer) ==> {
            &&& answer is None <==> {
                &&& loaded_actual(record.actual) matches Ok(used)
                &&& used == reconciliation.actual
                &&& match reconciliation.cached_input_tokens {
                    Some(cached) => record.actual_cached_input_tokens is Some
                        && record.actual_cached_input_tokens->0 == cached,
                    None => record.actual_cached_input_tokens is None,
                }
            }
            &&& answer matches Some(error) ==> error == ErrorModel::Conflict
        },
{
}

/// What usage a settlement takes: a commit needs the whole usage and its cached
/// tokens, a release takes none, and what is uncertain may come with usage or
/// without. Usage is of the reserved runs, cached tokens are input tokens, and
/// every amount is storable.
pub proof fn settlements_take_fitting_usage(
    reserved: AiBudgetAmounts,
    actual: Option<AiBudgetAmounts>,
    cached: Option<u64>,
    outcome: AiBudgetReconciliationOutcome,
)
    ensures
        usage_refusal(reserved, actual, cached, outcome) is None <==> {
            &&& outcome is Commit ==> actual is Some && cached is Some
            &&& outcome is ReleaseUnused ==> actual is None && cached is None
            &&& cached is Some ==> actual is Some && cached->0 <= actual->0.input_tokens
            &&& actual is Some ==> actual->0.runs == reserved.runs && forall|k: int|
                0 <= k < 6 ==> #[trigger] units(actual->0)[k] <= i64::MAX
        },
{
    if actual is Some {
        bounds_hold_in_every_unit(actual->0, actual->0);
    }
}

/// Settling a counter takes the reserved amount off what it holds, and adds
/// what was used to what it committed, in every unit; its row and version are
/// the ones that were read. It succeeds exactly where the counter holds that
/// much and the committed side stays storable.
pub proof fn counters_settle_in_every_unit(
    counter: AiBudgetCounterRecord,
    reserved: AiBudgetAmounts,
    actual: Option<AiBudgetAmounts>,
    update: CounterUpdate,
)
    ensures
        counter_settlement_refusal(Some(counter), reserved, actual) is None <==> {
            &&& forall|k: int|
                0 <= k < 6 ==> #[trigger] columns(counter.reserved)[k] >= units(reserved)[k]
            &&& forall|k: int| 0 <= k < 6 ==> #[trigger] columns(counter.committed)[k] >= 0
            &&& actual is Some ==> forall|k: int|
                0 <= k < 6 ==> #[trigger] columns(counter.committed)[k] + units(actual->0)[k]
                    <= i64::MAX
        },
        counter_settlement_refusal(None, reserved, actual) == Some(ErrorModel::PersistenceFailed),
        counter_settled(Some(counter), reserved, actual, update) && counter_settlement_refusal(
            Some(counter),
            reserved,
            actual,
        ) is None ==> {
            &&& update.counter_id == counter.id
            &&& update.expected_row_version == counter.row_version
            &&& forall|k: int|
                0 <= k < 6 ==> #[trigger] columns(update.reserved)[k] == columns(
                    counter.reserved,
                )[k] - units(reserved)[k]
            &&& forall|k: int|
                0 <= k < 6 ==> #[trigger] columns(update.committed)[k] == columns(
                    counter.committed,
                )[k] + (if actual is Some {
                    units(actual->0)[k]
                } else {
                    0
                })
        },
{
    let (h, s) = (columns(counter.reserved), columns(counter.committed));
    let r = units(reserved);
    assert(h[0] == counter.reserved.input_tokens && h[1] == counter.reserved.output_tokens);
    assert(h[2] == counter.reserved.tool_units && h[3] == counter.reserved.image_units);
    assert(h[4] == counter.reserved.cost_microunits && h[5] == counter.reserved.runs);
    assert(s[0] == counter.committed.input_tokens && s[1] == counter.committed.output_tokens);
    assert(s[2] == counter.committed.tool_units && s[3] == counter.committed.image_units);
    assert(s[4] == counter.committed.cost_microunits && s[5] == counter.committed.runs);
    assert(r[0] == reserved.input_tokens && r[1] == reserved.output_tokens);
    assert(r[2] == reserved.tool_units && r[3] == reserved.image_units);
    assert(r[4] == reserved.cost_microunits && r[5] == reserved.runs);
    if actual is Some {
        let u = units(actual->0);
        assert(s[0] + u[0] == counter.committed.input_tokens + actual->0.input_tokens);
        assert(s[1] + u[1] == counter.committed.output_tokens + actual->0.output_tokens);
        assert(s[2] + u[2] == counter.committed.tool_units + actual->0.tool_units);
        assert(s[3] + u[3] == counter.committed.image_units + actual->0.image_units);
        assert(s[4] + u[4] == counter.committed.cost_microunits + actual->0.cost_microunits);
        assert(s[5] + u[5] == counter.committed.runs + actual->0.runs);
    }
}

/// A usage entry is of the reservation that was settled: its scope, principal,
/// session, run, provider, and model, and the amounts that were used.
pub proof fn usage_entries_name_their_reservation(
    entry: NewUsageEntry,
    usage_id: Uuid,
    record: AiBudgetReservationRecord,
    used: AiBudgetAmounts,
    cached: u64,
)
    requires
        usage_recorded(entry, usage_id, record, used, cached),
    ensures
        entry.id == usage_id,
        entry.budget_reservation_id == record.id,
        entry.scope_kind@ == record.scope_kind@,
        entry.scope_id@ == record.scope_id@,
        text_option(entry.tenant_id) == text_option(record.tenant_id),
        entry.principal_kind@ == record.principal_kind@,
        entry.principal_subject@ == record.principal_subject@,
        entry.session_id == record.session_id,
        entry.run_id == record.run_id,
        entry.provider_kind@ == record.provider_kind@,
        entry.provider_model@ == record.provider_model@,
        entry.input_tokens == used.input_tokens,
        entry.cached_input_tokens == cached,
        entry.output_tokens == used.output_tokens,
        entry.tool_units == used.tool_units,
        entry.image_units == used.image_units,
        entry.cost_microunits == used.cost_microunits,
{
}

/// A settled row says how it was settled, with which usage, and when, and is
/// written only over the version that was read.
pub proof fn settled_rows_say_how(
    update: ReservationUpdate,
    record: AiBudgetReservationRecord,
    actual: Option<AiBudgetAmounts>,
    cached: Option<u64>,
    outcome: AiBudgetReconciliationOutcome,
    second: int,
)
    requires
        settlement_recorded(update, record, actual, cached, outcome, second),
        actual is Some ==> storable(actual->0),
        cached is Some ==> cached->0 <= i64::MAX,
    ensures
        update.reservation_id == record.id,
        update.expected_row_version == record.row_version,
        update.reconciled_at == second,
        update.state@ == match outcome {
            AiBudgetReconciliationOutcome::Commit => "committed"@,
            AiBudgetReconciliationOutcome::ReleaseUnused => "released"@,
            AiBudgetReconciliationOutcome::MarkUncertain => "uncertain"@,
        },
        loaded_actual(update.actual) == Ok::<Option<AiBudgetAmounts>, ErrorModel>(actual),
        update.actual_cached_input_tokens is Some <==> cached is Some,
        cached matches Some(tokens) ==> update.actual_cached_input_tokens->0 == tokens,
{
}

proof fn lemma_settled_counters_fit(
    counters: Seq<Option<AiBudgetCounterRecord>>,
    reserved: AiBudgetAmounts,
    actual: Option<AiBudgetAmounts>,
    count: nat,
)
    ensures
        first_settlement_refusal(counters, reserved, actual, count) is None <==> forall|i: int|
            0 <= i < count ==> counter_settlement_refusal(
                #[trigger] counters[i],
                reserved,
                actual,
            ) is None,
    decreases count,
{
    if count > 0 {
        lemma_settled_counters_fit(counters, reserved, actual, (count - 1) as nat);
    }
}

/// An open reservation is settled exactly where it is the principal's own, its
/// attempt is the running one, the usage fits, and every counter that it was
/// reserved on can be settled. What is uncertain is never released, and what
/// is closed is never settled otherwise.
pub proof fn settlements_are_of_open_reservations(
    snapshot: ReconciliationSnapshot,
    principal: ResolvedPrincipal,
    reconciliation: AiBudgetReconciliation,
    now: UtcTime,
)
    requires
        snapshot.record is Some,
        !is_replay(snapshot.record->0, reconciliation),
    ensures
        reconciliation_refusal(snapshot, principal, reconciliation, now) is None <==> {
            let record = snapshot.record->0;
            &&& record.principal_kind@ == principal_kind_text(principal.principal)
            &&& record.principal_subject@ == principal_subject_text(principal.principal)
            &&& record.state@ == "reserved"@ || (record.state@ == "uncertain"@
                && !(reconciliation.outcome is ReleaseUnused))
            &&& snapshot.run is Some
            &&& reconciliation_fenced(
                snapshot.run->0,
                record,
                principal.reference,
                reconciliation,
                now,
            )
            &&& non_negative(record.reserved)
            &&& usage_refusal(
                as_amounts(record.reserved),
                reconciliation.actual,
                reconciliation.cached_input_tokens,
                reconciliation.outcome,
            ) is None
            &&& readable_counter_ids(record.budget_counter_ids)
            &&& !(reconciliation.outcome is MarkUncertain) ==> forall|i: int|
                0 <= i < record.budget_counter_ids->0@.len() ==> counter_settlement_refusal(
                    #[trigger] snapshot.counters@[i],
                    as_amounts(record.reserved),
                    reconciliation.actual,
                ) is None
        },
        !owned_by(snapshot.record->0, principal) ==> reconciliation_refusal(
            snapshot,
            principal,
            reconciliation,
            now,
        ) == Some(ErrorModel::NotFound),
{
    let record = snapshot.record->0;
    if record.budget_counter_ids is Some {
        lemma_settled_counters_fit(
            snapshot.counters@,
            as_amounts(record.reserved),
            reconciliation.actual,
            record.budget_counter_ids->0@.len(),
        );
    }
    reservation_states_are_spelled_so(record.state@);
    assert(reservation_state_of("reserved"@) == Some(AiBudgetReservationState::Reserved)) by {
        reservation_states_are_spelled_so("reserved"@);
    }
    assert(reservation_state_of("uncertain"@) == Some(AiBudgetReservationState::Uncertain)) by {
        reservation_states_are_spelled_so("uncertain"@);
    }
}

/// A settlement repeats what was done exactly where the row already is in the
/// state that its outcome leads to.
pub proof fn replays_are_told_by_the_state(
    record: AiBudgetReservationRecord,
    reconciliation: AiBudgetReconciliation,
)
    ensures
        is_replay(record, reconciliation) <==> record.state@ == match reconciliation.outcome {
            AiBudgetReconciliationOutcome::Commit => "committed"@,
            AiBudgetReconciliationOutcome::ReleaseUnused => "released"@,
            AiBudgetReconciliationOutcome::MarkUncertain => "uncertain"@,
        },
{
    reservation_states_are_spelled_so(record.state@);
}

proof fn lemma_background_counters_fit(
    counters: Seq<Option<AiBudgetCounterRecord>>,
    reserved: AiBudgetAmounts,
    actual: AiBudgetAmounts,
    count: nat,
)
    ensures
        first_background_fault(counters, reserved, actual, count) is None <==> forall|i: int|
            0 <= i < count ==> counter_settlement_refusal(
                #[trigger] counters[i],
                reserved,
                Some(actual),
            ) is None,
    decreases count,
{
    if count > 0 {
        lemma_background_counters_fit(counters, reserved, actual, (count - 1) as nat);
    }
}

/// A background reservation is committed exactly where it was marked uncertain
/// before, the usage fits a commit of it, and every counter can be settled.
pub proof fn background_commits_settle_uncertain_reservations(
    record: AiBudgetReservationRecord,
    counters: Seq<Option<AiBudgetCounterRecord>>,
    actual: AiBudgetAmounts,
    cached: u64,
)
    ensures
        background_commit_fault(record, counters, actual, cached) is None <==> {
            &&& record.state@ == "uncertain"@
            &&& record.reconciled_at is Some
            &&& non_negative(record.reserved)
            &&& actual.runs == record.reserved.runs
            &&& cached <= actual.input_tokens
            &&& storable(actual)
            &&& readable_counter_ids(record.budget_counter_ids)
            &&& forall|i: int|
                0 <= i < record.budget_counter_ids->0@.len() ==> counter_settlement_refusal(
                    #[trigger] counters[i],
                    as_amounts(record.reserved),
                    Some(actual),
                ) is None
        },
{
    if record.budget_counter_ids is Some {
        lemma_background_counters_fit(
            counters,
            as_amounts(record.reserved),
            actual,
            record.budget_counter_ids->0@.len(),
        );
    }
    reservation_states_are_spelled_so(record.state@);
}

/// A settlement is refused for what is wrong: a missing reservation, or one of
/// another principal, is not found; a closed one, an uncertain one that is to
/// be released, a missing run, or a stale fence is a conflict; and a malformed
/// row is a fault of the store.
pub proof fn refused_settlements_say_why(
    snapshot: ReconciliationSnapshot,
    principal: ResolvedPrincipal,
    reconciliation: AiBudgetReconciliation,
    now: UtcTime,
)
    ensures
        ({
            let refusal = reconciliation_refusal(snapshot, principal, reconciliation, now);
            let record = snapshot.record->0;
            let run = snapshot.run->0;
            let state = reservation_state_of(record.state@);
            let own = snapshot.record is Some && owned_by(record, principal);
            let open = own && state is Some && !is_replay(record, reconciliation);
            let settles = state->0 is Reserved || (state->0 is Uncertain
                && !(reconciliation.outcome is ReleaseUnused));
            &&& !own <==> refusal == Some(ErrorModel::NotFound)
            &&& own && state is None ==> refusal == Some(ErrorModel::PersistenceFailed)
            &&& open && !settles ==> refusal == Some(ErrorModel::Conflict)
            &&& open && settles && snapshot.run is None ==> refusal == Some(ErrorModel::Conflict)
            &&& open && settles && snapshot.run is Some && run.principal_reference is None
                ==> refusal == Some(ErrorModel::PersistenceFailed)
            &&& open && settles && snapshot.run is Some && run.principal_reference is Some
                && !reconciliation_fenced(run, record, principal.reference, reconciliation, now)
                ==> refusal == Some(ErrorModel::Conflict)
        }),
{
    if snapshot.record is Some && owned_by(snapshot.record->0, principal) {
        lemma_settlement_refusals(
            snapshot.counters@,
            as_amounts(snapshot.record->0.reserved),
            reconciliation.actual,
            snapshot.record->0.budget_counter_ids->0@.len(),
        );
    }
}

proof fn lemma_settlement_refusals(
    counters: Seq<Option<AiBudgetCounterRecord>>,
    reserved: AiBudgetAmounts,
    actual: Option<AiBudgetAmounts>,
    count: nat,
)
    ensures
        first_settlement_refusal(counters, reserved, actual, count) != Some(ErrorModel::NotFound),
    decreases count,
{
    if count > 0 {
        lemma_settlement_refusals(counters, reserved, actual, (count - 1) as nat);
    }
}

/// A background commit fails as a conflict where the reservation is not
/// uncertain or the usage does not fit, as not found for a missing counter, and
/// otherwise as a fault of the store.
pub proof fn background_commit_faults_say_what_is_wrong(
    record: AiBudgetReservationRecord,
    counters: Seq<Option<AiBudgetCounterRecord>>,
    counter: Option<AiBudgetCounterRecord>,
    actual: AiBudgetAmounts,
    cached: u64,
)
    ensures
        ({
            let fault = background_commit_fault(record, counters, actual, cached);
            let state = reservation_state_of(record.state@);
            let marked = state is Some && state->0 is Uncertain && record.reconciled_at is Some;
            &&& state is None ==> fault == Some(OrmErrorCode::InternalError)
            &&& state is Some && !marked ==> fault == Some(OrmErrorCode::Conflict)
            &&& marked && !non_negative(record.reserved) ==> fault == Some(
                OrmErrorCode::InternalError,
            )
            &&& marked && non_negative(record.reserved) && usage_refusal(
                as_amounts(record.reserved),
                Some(actual),
                Some(cached),
                AiBudgetReconciliationOutcome::Commit,
            ) is Some ==> fault == Some(OrmErrorCode::Conflict)
        }),
        background_counter_fault(counter, as_amounts(record.reserved), actual) == Some(
            OrmErrorCode::NotFound,
        ) <==> counter is None,
        background_counter_fault(counter, as_amounts(record.reserved), actual) is Some && counter
            is Some ==> background_counter_fault(counter, as_amounts(record.reserved), actual)
            == Some(OrmErrorCode::InternalError),
{
}

/// The message that names the usage of a reservation is that reservation's
/// alone.
pub proof fn usage_entries_are_named_by_their_reservation(reservation: Uuid, other: Uuid)
    requires
        background_usage_message(reservation) == background_usage_message(other),
    ensures
        reservation == other,
{
    let head = encode_utf8("graphql-orm-ai/background-usage/v1\0"@);
    let (a, b) = (big_endian_bytes(reservation as nat, 16), big_endian_bytes(other as nat, 16));
    assert(background_usage_message(reservation) =~= head + a + Seq::<u8>::empty());
    assert(background_usage_message(other) =~= head + b + Seq::<u8>::empty());
    lemma_between(head, a, b, Seq::empty());
    lemma_u128_bytes_injective(reservation as nat, other as nat);
}

/// Usage that does not fit is refused by name: a commit needs its usage and its
/// cached tokens, a release has neither, the runs are those reserved, and the
/// cached tokens are among the input tokens.
pub proof fn refused_usage_says_why(
    reserved: AiBudgetAmounts,
    actual: Option<AiBudgetAmounts>,
    cached: Option<u64>,
)
    ensures
        ({
            let refusal = usage_refusal(
                reserved,
                actual,
                cached,
                AiBudgetReconciliationOutcome::Commit,
            );
            let used = actual->0;
            let runs = actual is Some && used.runs == reserved.runs;
            &&& actual is None ==> refusal == Some(
                ErrorModel::InvalidInput("committed budget usage is required"@),
            )
            &&& actual is Some && !runs ==> refusal == Some(
                ErrorModel::InvalidInput("actual budget run count does not match reservation"@),
            )
            &&& runs && cached is None ==> refusal == Some(
                ErrorModel::InvalidInput("committed cached-token usage is required"@),
            )
            &&& runs && cached is Some && cached->0 > used.input_tokens ==> refusal == Some(
                ErrorModel::InvalidInput("cached input exceeds total input usage"@),
            )
            &&& runs && cached is Some && cached->0 <= used.input_tokens && refusal is Some
                ==> refusal == Some(
                ErrorModel::InvalidConfiguration("AI budget amount exceeds storage"@),
            )
        }),
        ({
            let refusal = usage_refusal(
                reserved,
                actual,
                cached,
                AiBudgetReconciliationOutcome::ReleaseUnused,
            );
            actual is Some || cached is Some ==> refusal == Some(
                ErrorModel::InvalidInput("unused budget release cannot include usage"@),
            )
        }),
        ({
            let refusal = usage_refusal(
                reserved,
                actual,
                cached,
                AiBudgetReconciliationOutcome::MarkUncertain,
            );
            let used = actual->0;
            let runs = actual is Some && used.runs == reserved.runs;
            let beyond = cached is Some && cached->0 > used.input_tokens;
            &&& actual is None && cached is Some ==> refusal == Some(
                ErrorModel::InvalidInput("cached input requires uncertain usage"@),
            )
            &&& actual is Some && !runs ==> refusal == Some(
                ErrorModel::InvalidInput("uncertain budget run count does not match reservation"@),
            )
            &&& runs && beyond ==> refusal == Some(
                ErrorModel::InvalidInput("cached input exceeds uncertain input usage"@),
            )
            &&& runs && !beyond && refusal is Some ==> refusal == Some(
                ErrorModel::InvalidConfiguration("AI budget amount exceeds storage"@),
            )
        }),
{
}

/// A counter that is missing or cannot be read stops a settlement as a fault of
/// the store.
pub proof fn unreadable_counters_stop_settlements(
    counter: Option<AiBudgetCounterRecord>,
    reserved: AiBudgetAmounts,
    actual: Option<AiBudgetAmounts>,
)
    requires
        counter is None || !non_negative(counter->0.reserved) || !non_negative(
            counter->0.committed,
        ),
    ensures
        counter_settlement_refusal(counter, reserved, actual) == Some(
            ErrorModel::PersistenceFailed,
        ),
{
}

/// Another usage than the settled one is a conflict with it.
pub proof fn changed_settlements_conflict(
    record: AiBudgetReservationRecord,
    reconciliation: AiBudgetReconciliation,
    state: AiBudgetReservationState,
)
    requires
        state == settled_state(reconciliation.outcome),
        loaded_actual(record.actual) is Ok,
        loaded_actual(record.actual)->Ok_0 != reconciliation.actual,
    ensures
        replay_refusal(record, state, reconciliation) == Some(Some(ErrorModel::Conflict)),
{
}

/// A settlement reads as its row says: what is committed is what was used, what
/// is released is all of a released reservation, and what is held is all of an
/// open one.
pub proof fn settlements_read_as_their_row(
    record: AiBudgetReservationRecord,
    settlement: AiBudgetReconciliationResult,
)
    requires
        readable_settlement(record),
        settlement_reads(record, settlement),
    ensures
        record.state@ == "committed"@ ==> loaded_actual(record.actual)->Ok_0 == Some(
            settlement.committed,
        ),
        record.state@ == "released"@ || record.state@ == "expired"@ ==> settlement.released
            == as_amounts(record.reserved) && settlement.committed == zero_amounts(),
        record.state@ == "uncertain"@ || record.state@ == "reserved"@ ==> settlement.held
            == as_amounts(record.reserved) && settlement.committed == zero_amounts(),
        settlement.reservation.id == record.id,
{
    reservation_states_are_spelled_so(record.state@);
}

} // verus!
