//! Budget rows and the values read from them.

use crate::budget::amounts::{
    AiBudgetAmounts, StoredAmounts, as_amounts, columns, columns_hold_their_units, load_amounts,
    loaded, non_negative, storable, units,
};
use crate::clock::{UtcTime, calendar_second};
use crate::digest::Uuid;
use crate::error::{AiError, ErrorModel, outcome};
use crate::provider::{
    ProviderKind, parse_provider_kind, provider_kind_of, provider_kind_round_trip,
    provider_kind_text,
};
use crate::text::same_text;
use vstd::prelude::*;

verus! {

/// Ceilings of one policy; an absent ceiling does not limit its unit.
#[derive(Clone, Copy, Debug, PartialEq, Eq, Structural)]
pub struct PolicyCeilings {
    pub input_tokens: Option<i64>,
    pub output_tokens: Option<i64>,
    pub tool_units: Option<i64>,
    pub image_units: Option<i64>,
    pub cost_microunits: Option<i64>,
    pub runs: Option<i64>,
}

/// One configured budget policy.
#[derive(Debug, PartialEq, Eq)]
pub struct AiBudgetPolicyRecord {
    pub id: Uuid,
    pub scope_key: String,
    pub scope_kind: String,
    pub scope_id: String,
    pub tenant_id: Option<String>,
    pub principal_kind: Option<String>,
    pub principal_subject: Option<String>,
    pub interval_kind: String,
    pub maximum: PolicyCeilings,
    pub enabled: bool,
    pub row_version: i64,
}

/// Reserved and committed amounts of one policy in one period.
#[derive(Debug, PartialEq, Eq)]
pub struct AiBudgetCounterRecord {
    pub id: Uuid,
    pub budget_policy_id: Uuid,
    pub policy_version: i64,
    pub period_key: String,
    pub period_started_at: i64,
    pub period_ends_at: i64,
    pub reserved: StoredAmounts,
    pub committed: StoredAmounts,
    pub row_version: i64,
}

/// Settled amounts as stored; either every column holds a value or none does.
#[derive(Clone, Copy, Debug, PartialEq, Eq, Structural)]
pub struct StoredActual {
    pub input_tokens: Option<i64>,
    pub output_tokens: Option<i64>,
    pub tool_units: Option<i64>,
    pub image_units: Option<i64>,
    pub cost_microunits: Option<i64>,
    pub runs: Option<i64>,
}

/// One reservation row.
#[derive(Debug, PartialEq, Eq)]
pub struct AiBudgetReservationRecord {
    pub id: Uuid,
    pub budget_counter_ids: Option<Vec<Uuid>>,
    pub scope_kind: String,
    pub scope_id: String,
    pub tenant_id: Option<String>,
    pub principal_kind: String,
    pub principal_subject: String,
    pub session_id: Uuid,
    pub run_id: Uuid,
    pub attempt_id: Uuid,
    pub lease_generation: i64,
    pub provider_kind: String,
    pub provider_model: String,
    pub pricing_policy_version: String,
    pub reserved: StoredAmounts,
    pub actual: StoredActual,
    pub actual_cached_input_tokens: Option<i64>,
    pub idempotency_key: String,
    pub state: String,
    pub expires_at: i64,
    pub reconciled_at: Option<i64>,
    pub row_version: i64,
}

/// Lifecycle of a reservation.
#[derive(Clone, Copy, Debug, PartialEq, Eq, Structural)]
pub enum AiBudgetReservationState {
    Reserved,
    Committed,
    Released,
    Uncertain,
    Expired,
}

/// Persisted spelling of a reservation state.
pub open spec fn reservation_state_text(state: AiBudgetReservationState) -> Seq<char> {
    match state {
        AiBudgetReservationState::Reserved => "reserved"@,
        AiBudgetReservationState::Committed => "committed"@,
        AiBudgetReservationState::Released => "released"@,
        AiBudgetReservationState::Uncertain => "uncertain"@,
        AiBudgetReservationState::Expired => "expired"@,
    }
}

/// The reservation state with the given spelling.
pub open spec fn reservation_state_of(value: Seq<char>) -> Option<AiBudgetReservationState> {
    if value == "reserved"@ {
        Some(AiBudgetReservationState::Reserved)
    } else if value == "committed"@ {
        Some(AiBudgetReservationState::Committed)
    } else if value == "released"@ {
        Some(AiBudgetReservationState::Released)
    } else if value == "uncertain"@ {
        Some(AiBudgetReservationState::Uncertain)
    } else if value == "expired"@ {
        Some(AiBudgetReservationState::Expired)
    } else {
        None
    }
}

/// Reads a persisted reservation state.
pub fn parse_reservation_state(value: &str) -> (result: Result<AiBudgetReservationState, AiError>)
    ensures
        match result {
            Ok(state) => reservation_state_of(value@) == Some(state),
            Err(error) => reservation_state_of(value@) is None && error
                == AiError::PersistenceFailed,
        },
{
    if same_text(value, "reserved") {
        Ok(AiBudgetReservationState::Reserved)
    } else if same_text(value, "committed") {
        Ok(AiBudgetReservationState::Committed)
    } else if same_text(value, "released") {
        Ok(AiBudgetReservationState::Released)
    } else if same_text(value, "uncertain") {
        Ok(AiBudgetReservationState::Uncertain)
    } else if same_text(value, "expired") {
        Ok(AiBudgetReservationState::Expired)
    } else {
        Err(AiError::PersistenceFailed)
    }
}

/// Every reservation state survives being persisted and read back.
pub proof fn reservation_state_round_trip(state: AiBudgetReservationState)
    ensures
        reservation_state_of(reservation_state_text(state)) == Some(state),
{
    reveal_strlit("reserved");
    reveal_strlit("committed");
    reveal_strlit("released");
    reveal_strlit("uncertain");
    reveal_strlit("expired");
    assert("reserved"@.len() == 8 && "committed"@.len() == 9 && "released"@.len() == 8);
    assert("uncertain"@.len() == 9 && "expired"@.len() == 7);
    assert("reserved"@[2] == 's' && "released"@[2] == 'l');
    assert("committed"@[0] == 'c' && "uncertain"@[0] == 'u');
}

/// Settled columns that are all empty.
pub open spec fn actual_absent(actual: StoredActual) -> bool {
    &&& actual.input_tokens is None
    &&& actual.output_tokens is None
    &&& actual.tool_units is None
    &&& actual.image_units is None
    &&& actual.cost_microunits is None
    &&& actual.runs is None
}

/// Settled columns that are all filled.
pub open spec fn actual_present(actual: StoredActual) -> bool {
    &&& actual.input_tokens is Some
    &&& actual.output_tokens is Some
    &&& actual.tool_units is Some
    &&& actual.image_units is Some
    &&& actual.cost_microunits is Some
    &&& actual.runs is Some
}

/// The values in filled settled columns.
pub open spec fn actual_columns(actual: StoredActual) -> StoredAmounts {
    StoredAmounts {
        input_tokens: actual.input_tokens->0,
        output_tokens: actual.output_tokens->0,
        tool_units: actual.tool_units->0,
        image_units: actual.image_units->0,
        cost_microunits: actual.cost_microunits->0,
        runs: actual.runs->0,
    }
}

/// The stored form of optional settled amounts.
pub open spec fn as_stored_actual(actual: Option<AiBudgetAmounts>) -> StoredActual {
    match actual {
        Some(amounts) => StoredActual {
            input_tokens: Some(amounts.input_tokens as i64),
            output_tokens: Some(amounts.output_tokens as i64),
            tool_units: Some(amounts.tool_units as i64),
            image_units: Some(amounts.image_units as i64),
            cost_microunits: Some(amounts.cost_microunits as i64),
            runs: Some(amounts.runs as i64),
        },
        None => StoredActual {
            input_tokens: None,
            output_tokens: None,
            tool_units: None,
            image_units: None,
            cost_microunits: None,
            runs: None,
        },
    }
}

/// What reading the settled columns gives: nothing where all are empty, the
/// amounts where all hold non-negative values, a malformed row otherwise.
pub open spec fn loaded_actual(actual: StoredActual) -> Result<Option<AiBudgetAmounts>, ErrorModel> {
    if actual_absent(actual) {
        Ok(None)
    } else if actual_present(actual) && non_negative(actual_columns(actual)) {
        Ok(Some(as_amounts(actual_columns(actual))))
    } else {
        Err(ErrorModel::PersistenceFailed)
    }
}

/// Reads the settled columns of a reservation.
pub fn reservation_actual(record: &AiBudgetReservationRecord) -> (result: Result<
    Option<AiBudgetAmounts>,
    AiError,
>)
    ensures
        outcome(result) == loaded_actual(record.actual),
        result matches Ok(Some(amounts)) ==> storable(amounts),
{
    let actual: StoredActual = record.actual;
    match (
        actual.input_tokens,
        actual.output_tokens,
        actual.tool_units,
        actual.image_units,
        actual.cost_microunits,
        actual.runs,
    ) {
        (None, None, None, None, None, None) => Ok(None),
        (
            Some(input_tokens),
            Some(output_tokens),
            Some(tool_units),
            Some(image_units),
            Some(cost_microunits),
            Some(runs),
        ) => {
            let columns = StoredAmounts {
                input_tokens,
                output_tokens,
                tool_units,
                image_units,
                cost_microunits,
                runs,
            };
            match load_amounts(columns) {
                Ok(amounts) => Ok(Some(amounts)),
                Err(error) => Err(error),
            }
        },
        _ => Err(AiError::PersistenceFailed),
    }
}

/// Reads the reserved columns of a reservation.
pub fn reservation_amounts(record: &AiBudgetReservationRecord) -> (result: Result<
    AiBudgetAmounts,
    AiError,
>)
    ensures
        outcome(result) == loaded(record.reserved),
        result matches Ok(amounts) ==> storable(amounts),
{
    load_amounts(record.reserved)
}

/// Reads the reserved columns of a counter.
pub fn counter_reserved(record: &AiBudgetCounterRecord) -> (result: Result<AiBudgetAmounts, AiError>)
    ensures
        outcome(result) == loaded(record.reserved),
{
    load_amounts(record.reserved)
}

/// Reads the committed columns of a counter.
pub fn counter_committed(record: &AiBudgetCounterRecord) -> (result: Result<
    AiBudgetAmounts,
    AiError,
>)
    ensures
        outcome(result) == loaded(record.committed),
{
    load_amounts(record.committed)
}

/// A reservation as callers see it.
#[derive(Debug, PartialEq, Eq)]
pub struct AiBudgetReservation {
    pub id: Uuid,
    pub run_id: Uuid,
    pub attempt_id: Uuid,
    pub lease_generation: i64,
    pub provider_kind: ProviderKind,
    pub provider_model: String,
    pub pricing_policy_version: String,
    pub reserved: AiBudgetAmounts,
    pub actual: Option<AiBudgetAmounts>,
    pub state: AiBudgetReservationState,
    pub expires_at: UtcTime,
}

/// Whether every column of the reservation can be read.
pub open spec fn readable_reservation(record: AiBudgetReservationRecord) -> bool {
    &&& provider_kind_of(record.provider_kind@) is Some
    &&& non_negative(record.reserved)
    &&& loaded_actual(record.actual) is Ok
    &&& reservation_state_of(record.state@) is Some
    &&& calendar_second(record.expires_at as int)
}

/// Whether `reservation` is what the row says.
pub open spec fn reservation_reads(
    record: AiBudgetReservationRecord,
    reservation: AiBudgetReservation,
) -> bool {
    &&& reservation.id == record.id
    &&& reservation.run_id == record.run_id
    &&& reservation.attempt_id == record.attempt_id
    &&& reservation.lease_generation == record.lease_generation
    &&& Some(reservation.provider_kind) == provider_kind_of(record.provider_kind@)
    &&& reservation.provider_model == record.provider_model
    &&& reservation.pricing_policy_version == record.pricing_policy_version
    &&& reservation.reserved == as_amounts(record.reserved)
    &&& Ok::<Option<AiBudgetAmounts>, ErrorModel>(reservation.actual) == loaded_actual(
        record.actual,
    )
    &&& Some(reservation.state) == reservation_state_of(record.state@)
    &&& reservation.expires_at == UtcTime::at(record.expires_at as int)
}

/// Reads a reservation row; succeeds exactly where every column is readable.
pub fn record_to_reservation(record: &AiBudgetReservationRecord) -> (result: Result<
    AiBudgetReservation,
    AiError,
>)
    ensures
        match result {
            Ok(reservation) => readable_reservation(*record) && reservation_reads(
                *record,
                reservation,
            ),
            Err(error) => !readable_reservation(*record) && error@
                == ErrorModel::PersistenceFailed,
        },
{
    let provider_kind: ProviderKind = match parse_provider_kind(record.provider_kind.as_str()) {
        Ok(kind) => kind,
        Err(error) => return Err(error),
    };
    let reserved: AiBudgetAmounts = match reservation_amounts(record) {
        Ok(amounts) => amounts,
        Err(error) => return Err(error),
    };
    let actual: Option<AiBudgetAmounts> = match reservation_actual(record) {
        Ok(amounts) => amounts,
        Err(error) => return Err(error),
    };
    let state: AiBudgetReservationState = match parse_reservation_state(record.state.as_str()) {
        Ok(state) => state,
        Err(error) => return Err(error),
    };
    match UtcTime::from_unix_timestamp(record.expires_at) {
        Some(expires_at) => Ok(
            AiBudgetReservation {
                id: record.id,
                run_id: record.run_id,
                attempt_id: record.attempt_id,
                lease_generation: record.lease_generation,
                provider_kind,
                provider_model: record.provider_model.clone(),
                pricing_policy_version: record.pricing_policy_version.clone(),
                reserved,
                actual,
                state,
                expires_at,
            },
        ),
        None => Err(AiError::PersistenceFailed),
    }
}

/// Whether an identifier occurs at most once.
pub open spec fn distinct_ids(ids: Seq<Uuid>) -> bool {
    forall|i: int, j: int| 0 <= i < j < ids.len() ==> ids[i] != ids[j]
}

/// Whether the counter list of a reservation decodes, is not empty, and names
/// no counter twice.
pub open spec fn readable_counter_ids(ids: Option<Vec<Uuid>>) -> bool {
    ids matches Some(list) && list@.len() > 0 && distinct_ids(list@)
}

/// Whether no identifier occurs twice.
pub fn are_distinct(ids: &Vec<Uuid>) -> (result: bool)
    ensures
        result == distinct_ids(ids@),
{
    let mut i: usize = 0;
    while i < ids.len()
        invariant
            i <= ids@.len(),
            forall|a: int, b: int| 0 <= a < b < ids@.len() && a < i ==> ids@[a] != ids@[b],
        decreases ids@.len() - i,
    {
        let mut j: usize = i + 1;
        while j < ids.len()
            invariant
                i < j <= ids@.len(),
                i < ids@.len(),
                forall|b: int| i < b < j ==> ids@[i as int] != ids@[b],
            decreases ids@.len() - j,
        {
            if ids[i] == ids[j] {
                return false;
            }
            j += 1;
        }
        i += 1;
    }
    true
}

/// The counters a reservation holds capacity of.
pub fn reservation_counter_ids(record: &AiBudgetReservationRecord) -> (result: Result<
    Vec<Uuid>,
    AiError,
>)
    ensures
        match result {
            Ok(ids) => readable_counter_ids(record.budget_counter_ids) && ids@
                == record.budget_counter_ids->0@,
            Err(error) => !readable_counter_ids(record.budget_counter_ids) && error@
                == ErrorModel::PersistenceFailed,
        },
{
    match &record.budget_counter_ids {
        Some(ids) => {
            if ids.len() > 0 && are_distinct(ids) {
                let mut copy: Vec<Uuid> = Vec::new();
                let mut i: usize = 0;
                while i < ids.len()
                    invariant
                        i <= ids@.len(),
                        copy@ == ids@.subrange(0, i as int),
                    decreases ids@.len() - i,
                {
                    copy.push(ids[i]);
                    i += 1;
                    proof {
                        assert(copy@ =~= ids@.subrange(0, i as int));
                    }
                }
                proof {
                    assert(ids@.subrange(0, i as int) =~= ids@);
                }
                Ok(copy)
            } else {
                Err(AiError::PersistenceFailed)
            }
        },
        None => Err(AiError::PersistenceFailed),
    }
}

/// A reservation reads as its row says, column by column, and is refused as
/// malformed exactly where a column cannot be read.
pub proof fn reservations_read_as_their_row(
    record: AiBudgetReservationRecord,
    reservation: AiBudgetReservation,
)
    requires
        readable_reservation(record),
        reservation_reads(record, reservation),
    ensures
        reservation.id == record.id,
        reservation.run_id == record.run_id,
        reservation.attempt_id == record.attempt_id,
        reservation.lease_generation == record.lease_generation,
        provider_kind_text(reservation.provider_kind) == record.provider_kind@,
        reservation.provider_model@ == record.provider_model@,
        reservation.pricing_policy_version@ == record.pricing_policy_version@,
        units(reservation.reserved) == columns(record.reserved),
        reservation.actual is Some <==> record.actual.input_tokens is Some,
        reservation.actual matches Some(used) ==> units(used) == seq![
            record.actual.input_tokens->0 as int,
            record.actual.output_tokens->0 as int,
            record.actual.tool_units->0 as int,
            record.actual.image_units->0 as int,
            record.actual.cost_microunits->0 as int,
            record.actual.runs->0 as int,
        ],
        reservation_state_text(reservation.state) == record.state@,
        reservation.expires_at.nanos == record.expires_at * 1_000_000_000,
{
    provider_kind_round_trip(reservation.provider_kind, record.provider_kind@);
    columns_hold_their_units(reservation.reserved, record.reserved);
    if reservation.actual is Some {
        columns_hold_their_units(reservation.actual->0, actual_columns(record.actual));
    }
}

/// The columns of what was used are all filled with what was used, or all
/// empty; anything between is malformed.
pub proof fn usage_columns_are_all_or_nothing(
    actual: Option<AiBudgetAmounts>,
    stored: StoredActual,
)
    ensures
        loaded_actual(stored) is Ok <==> {
            ||| stored.input_tokens is None && stored.output_tokens is None && stored.tool_units
                is None && stored.image_units is None && stored.cost_microunits is None
                && stored.runs is None
            ||| stored.input_tokens is Some && stored.output_tokens is Some && stored.tool_units
                is Some && stored.image_units is Some && stored.cost_microunits is Some
                && stored.runs is Some && stored.input_tokens->0 >= 0 && stored.output_tokens->0
                >= 0 && stored.tool_units->0 >= 0 && stored.image_units->0 >= 0
                && stored.cost_microunits->0 >= 0 && stored.runs->0 >= 0
        },
        (actual is None || storable(actual->0)) ==> loaded_actual(as_stored_actual(actual)) == Ok::<
            Option<AiBudgetAmounts>,
            ErrorModel,
        >(actual),
{
}

/// The spellings of reservation states.
pub proof fn reservation_states_are_spelled_so(value: Seq<char>)
    ensures
        reservation_state_of(value) == Some(AiBudgetReservationState::Reserved) <==> value
            == "reserved"@,
        reservation_state_of(value) == Some(AiBudgetReservationState::Committed) <==> value
            == "committed"@,
        reservation_state_of(value) == Some(AiBudgetReservationState::Released) <==> value
            == "released"@,
        reservation_state_of(value) == Some(AiBudgetReservationState::Uncertain) <==> value
            == "uncertain"@,
        reservation_state_of(value) == Some(AiBudgetReservationState::Expired) <==> value
            == "expired"@,
{
    reservation_state_round_trip(AiBudgetReservationState::Reserved);
    reservation_state_round_trip(AiBudgetReservationState::Committed);
    reservation_state_round_trip(AiBudgetReservationState::Released);
    reservation_state_round_trip(AiBudgetReservationState::Uncertain);
    reservation_state_round_trip(AiBudgetReservationState::Expired);
}

/// The counters of a reservation can be read exactly where there is at least
/// one and none occurs twice.
pub proof fn reservation_counters_occur_once(ids: Option<Vec<Uuid>>)
    ensures
        readable_counter_ids(ids) <==> {
            &&& ids is Some
            &&& ids->0@.len() > 0
            &&& forall|i: int, j: int|
                0 <= i < ids->0@.len() && 0 <= j < ids->0@.len() && i != j ==> ids->0@[i]
                    != ids->0@[j]
        },
{
}

/// A reservation row can be read only where its provider and state are known,
/// nothing reserved is negative, and its expiry is an instant.
pub proof fn readable_reservations_are_whole(record: AiBudgetReservationRecord)
    requires
        readable_reservation(record),
    ensures
        provider_kind_of(record.provider_kind@) is Some,
        reservation_state_of(record.state@) is Some,
        forall|i: int| 0 <= i < 6 ==> #[trigger] columns(record.reserved)[i] >= 0,
        calendar_second(record.expires_at as int),
        loaded_actual(record.actual) is Ok,
{
}

} // verus!
