//! Budget amounts and the arithmetic that every counter uses.

use crate::error::{AiError, ErrorModel, OrmErrorCode, invalid_configuration, outcome};
use vstd::prelude::*;

verus! {

/// Amounts of every budgeted unit.
#[derive(Clone, Copy, Debug, PartialEq, Eq, Structural)]
pub struct AiBudgetAmounts {
    pub input_tokens: u64,
    pub output_tokens: u64,
    pub tool_units: u64,
    pub image_units: u64,
    pub cost_microunits: u64,
    pub runs: u64,
}

/// Amounts as stored in signed columns.
#[derive(Clone, Copy, Debug, PartialEq, Eq, Structural)]
pub struct StoredAmounts {
    pub input_tokens: i64,
    pub output_tokens: i64,
    pub tool_units: i64,
    pub image_units: i64,
    pub cost_microunits: i64,
    pub runs: i64,
}

/// Whether `relation` holds between the two values of every unit.
pub open spec fn each_unit(
    left: AiBudgetAmounts,
    right: AiBudgetAmounts,
    relation: spec_fn(int, int) -> bool,
) -> bool {
    &&& relation(left.input_tokens as int, right.input_tokens as int)
    &&& relation(left.output_tokens as int, right.output_tokens as int)
    &&& relation(left.tool_units as int, right.tool_units as int)
    &&& relation(left.image_units as int, right.image_units as int)
    &&& relation(left.cost_microunits as int, right.cost_microunits as int)
    &&& relation(left.runs as int, right.runs as int)
}

/// The amounts that `combine` gives for every unit.
pub open spec fn by_unit(
    left: AiBudgetAmounts,
    right: AiBudgetAmounts,
    combine: spec_fn(int, int) -> int,
) -> AiBudgetAmounts {
    AiBudgetAmounts {
        input_tokens: combine(left.input_tokens as int, right.input_tokens as int) as u64,
        output_tokens: combine(left.output_tokens as int, right.output_tokens as int) as u64,
        tool_units: combine(left.tool_units as int, right.tool_units as int) as u64,
        image_units: combine(left.image_units as int, right.image_units as int) as u64,
        cost_microunits: combine(left.cost_microunits as int, right.cost_microunits as int) as u64,
        runs: combine(left.runs as int, right.runs as int) as u64,
    }
}

/// Zero of every unit.
pub open spec fn zero_amounts() -> AiBudgetAmounts {
    AiBudgetAmounts {
        input_tokens: 0,
        output_tokens: 0,
        tool_units: 0,
        image_units: 0,
        cost_microunits: 0,
        runs: 0,
    }
}

/// Amounts that fit the signed columns.
pub open spec fn storable(amounts: AiBudgetAmounts) -> bool {
    each_unit(amounts, zero_amounts(), |value: int, _zero: int| value <= i64::MAX)
}

/// Whether `right` is at most `left` in every unit.
pub open spec fn covers(left: AiBudgetAmounts, right: AiBudgetAmounts) -> bool {
    each_unit(left, right, |l: int, r: int| r <= l)
}

/// Unit-wise sum, meaningful where every sum fits.
pub open spec fn sum(left: AiBudgetAmounts, right: AiBudgetAmounts) -> AiBudgetAmounts {
    by_unit(left, right, |l: int, r: int| l + r)
}

/// Unit-wise difference, meaningful where `left` covers `right`.
pub open spec fn difference(left: AiBudgetAmounts, right: AiBudgetAmounts) -> AiBudgetAmounts {
    by_unit(left, right, |l: int, r: int| l - r)
}

/// Unit-wise difference that stops at zero.
pub open spec fn excess(left: AiBudgetAmounts, right: AiBudgetAmounts) -> AiBudgetAmounts {
    by_unit(
        left,
        right,
        |l: int, r: int|
            if l >= r {
                l - r
            } else {
                0
            },
    )
}

/// Whether no unit's sum exceeds `limit`.
pub open spec fn sums_within(left: AiBudgetAmounts, right: AiBudgetAmounts, limit: int) -> bool {
    each_unit(left, right, |l: int, r: int| l + r <= limit)
}

/// What adding amounts gives: the sum where every unit fits the signed
/// columns, otherwise which bound was exceeded.
pub open spec fn added(left: AiBudgetAmounts, right: AiBudgetAmounts) -> Result<
    AiBudgetAmounts,
    ErrorModel,
> {
    if !sums_within(left, right, u64::MAX as int) {
        Err(ErrorModel::InvalidConfiguration("AI budget amount overflow"@))
    } else if !sums_within(left, right, i64::MAX as int) {
        Err(ErrorModel::InvalidConfiguration("AI budget amount exceeds storage"@))
    } else {
        Ok(sum(left, right))
    }
}

/// What subtracting amounts gives: the difference where it exists.
pub open spec fn subtracted(left: AiBudgetAmounts, right: AiBudgetAmounts) -> Result<
    AiBudgetAmounts,
    ErrorModel,
> {
    if covers(left, right) {
        Ok(difference(left, right))
    } else {
        Err(ErrorModel::PersistenceFailed)
    }
}

/// Stored columns without a negative value.
pub open spec fn non_negative(stored: StoredAmounts) -> bool {
    &&& stored.input_tokens >= 0
    &&& stored.output_tokens >= 0
    &&& stored.tool_units >= 0
    &&& stored.image_units >= 0
    &&& stored.cost_microunits >= 0
    &&& stored.runs >= 0
}

/// The amounts in non-negative stored columns.
pub open spec fn as_amounts(stored: StoredAmounts) -> AiBudgetAmounts {
    AiBudgetAmounts {
        input_tokens: stored.input_tokens as u64,
        output_tokens: stored.output_tokens as u64,
        tool_units: stored.tool_units as u64,
        image_units: stored.image_units as u64,
        cost_microunits: stored.cost_microunits as u64,
        runs: stored.runs as u64,
    }
}

/// The stored form of storable amounts.
pub open spec fn as_stored(amounts: AiBudgetAmounts) -> StoredAmounts {
    StoredAmounts {
        input_tokens: amounts.input_tokens as i64,
        output_tokens: amounts.output_tokens as i64,
        tool_units: amounts.tool_units as i64,
        image_units: amounts.image_units as i64,
        cost_microunits: amounts.cost_microunits as i64,
        runs: amounts.runs as i64,
    }
}

/// What reading stored columns gives.
pub open spec fn loaded(stored: StoredAmounts) -> Result<AiBudgetAmounts, ErrorModel> {
    if non_negative(stored) {
        Ok(as_amounts(stored))
    } else {
        Err(ErrorModel::PersistenceFailed)
    }
}

impl Default for AiBudgetAmounts {
    fn default() -> (result: Self)
        ensures
            result == zero_amounts(),
    {
        AiBudgetAmounts {
            input_tokens: 0,
            output_tokens: 0,
            tool_units: 0,
            image_units: 0,
            cost_microunits: 0,
            runs: 0,
        }
    }
}

impl AiBudgetAmounts {
    /// Whether no unit exceeds the given maximum.
    pub fn fits_within(self, maximum: AiBudgetAmounts) -> (result: bool)
        ensures
            result == covers(maximum, self),
    {
        self.input_tokens <= maximum.input_tokens && self.output_tokens <= maximum.output_tokens
            && self.tool_units <= maximum.tool_units && self.image_units <= maximum.image_units
            && self.cost_microunits <= maximum.cost_microunits && self.runs <= maximum.runs
    }
}

fn checked_component_add(left: u64, right: u64) -> (result: Result<u64, AiError>)
    ensures
        outcome(result) == if left + right <= u64::MAX {
            Ok::<u64, ErrorModel>((left + right) as u64)
        } else {
            Err(ErrorModel::InvalidConfiguration("AI budget amount overflow"@))
        },
{
    match left.checked_add(right) {
        Some(value) => Ok(value),
        None => Err(invalid_configuration("AI budget amount overflow")),
    }
}

fn checked_component_sub(left: u64, right: u64) -> (result: Result<u64, AiError>)
    ensures
        outcome(result) == if right <= left {
            Ok::<u64, ErrorModel>((left - right) as u64)
        } else {
            Err(ErrorModel::PersistenceFailed)
        },
{
    match left.checked_sub(right) {
        Some(value) => Ok(value),
        None => Err(AiError::PersistenceFailed),
    }
}

/// Accepts exactly the values that fit a signed column.
pub fn ensure_storable(value: u64) -> (result: Result<(), AiError>)
    ensures
        outcome(result) == if value <= i64::MAX {
            Ok::<(), ErrorModel>(())
        } else {
            Err(ErrorModel::InvalidConfiguration("AI budget amount exceeds storage"@))
        },
{
    if value <= i64::MAX as u64 {
        Ok(())
    } else {
        Err(invalid_configuration("AI budget amount exceeds storage"))
    }
}

/// Accepts exactly the storable amounts and returns them.
pub fn stored_amounts(amounts: AiBudgetAmounts) -> (result: Result<AiBudgetAmounts, AiError>)
    ensures
        outcome(result) == if storable(amounts) {
            Ok::<AiBudgetAmounts, ErrorModel>(amounts)
        } else {
            Err(ErrorModel::InvalidConfiguration("AI budget amount exceeds storage"@))
        },
{
    match ensure_storable(amounts.input_tokens) {
        Ok(()) => {},
        Err(error) => return Err(error),
    }
    match ensure_storable(amounts.output_tokens) {
        Ok(()) => {},
        Err(error) => return Err(error),
    }
    match ensure_storable(amounts.tool_units) {
        Ok(()) => {},
        Err(error) => return Err(error),
    }
    match ensure_storable(amounts.image_units) {
        Ok(()) => {},
        Err(error) => return Err(error),
    }
    match ensure_storable(amounts.cost_microunits) {
        Ok(()) => {},
        Err(error) => return Err(error),
    }
    match ensure_storable(amounts.runs) {
        Ok(()) => {},
        Err(error) => return Err(error),
    }
    Ok(amounts)
}

/// Adds amounts, refusing sums that overflow or exceed the stored columns.
pub fn checked_add(left: AiBudgetAmounts, right: AiBudgetAmounts) -> (result: Result<
    AiBudgetAmounts,
    AiError,
>)
    ensures
        outcome(result) == added(left, right),
        result matches Ok(total) ==> storable(total),
{
    let input_tokens: u64 = match checked_component_add(left.input_tokens, right.input_tokens) {
        Ok(value) => value,
        Err(error) => return Err(error),
    };
    let output_tokens: u64 = match checked_component_add(left.output_tokens, right.output_tokens) {
        Ok(value) => value,
        Err(error) => return Err(error),
    };
    let tool_units: u64 = match checked_component_add(left.tool_units, right.tool_units) {
        Ok(value) => value,
        Err(error) => return Err(error),
    };
    let image_units: u64 = match checked_component_add(left.image_units, right.image_units) {
        Ok(value) => value,
        Err(error) => return Err(error),
    };
    let cost_microunits: u64 = match checked_component_add(
        left.cost_microunits,
        right.cost_microunits,
    ) {
        Ok(value) => value,
        Err(error) => return Err(error),
    };
    let runs: u64 = match checked_component_add(left.runs, right.runs) {
        Ok(value) => value,
        Err(error) => return Err(error),
    };
    stored_amounts(
        AiBudgetAmounts {
            input_tokens,
            output_tokens,
            tool_units,
            image_units,
            cost_microunits,
            runs,
        },
    )
}

/// Subtracts amounts, refusing any unit that would become negative.
pub fn checked_sub(left: AiBudgetAmounts, right: AiBudgetAmounts) -> (result: Result<
    AiBudgetAmounts,
    AiError,
>)
    ensures
        outcome(result) == subtracted(left, right),
{
    let input_tokens: u64 = match checked_component_sub(left.input_tokens, right.input_tokens) {
        Ok(value) => value,
        Err(error) => return Err(error),
    };
    let output_tokens: u64 = match checked_component_sub(left.output_tokens, right.output_tokens) {
        Ok(value) => value,
        Err(error) => return Err(error),
    };
    let tool_units: u64 = match checked_component_sub(left.tool_units, right.tool_units) {
        Ok(value) => value,
        Err(error) => return Err(error),
    };
    let image_units: u64 = match checked_component_sub(left.image_units, right.image_units) {
        Ok(value) => value,
        Err(error) => return Err(error),
    };
    let cost_microunits: u64 = match checked_component_sub(
        left.cost_microunits,
        right.cost_microunits,
    ) {
        Ok(value) => value,
        Err(error) => return Err(error),
    };
    let runs: u64 = match checked_component_sub(left.runs, right.runs) {
        Ok(value) => value,
        Err(error) => return Err(error),
    };
    Ok(
        AiBudgetAmounts {
            input_tokens,
            output_tokens,
            tool_units,
            image_units,
            cost_microunits,
            runs,
        },
    )
}

/// Subtracts amounts, stopping at zero in every unit.
pub fn saturating_sub(left: AiBudgetAmounts, right: AiBudgetAmounts) -> (result: AiBudgetAmounts)
    ensures
        result == excess(left, right),
{
    AiBudgetAmounts {
        input_tokens: left.input_tokens.saturating_sub(right.input_tokens),
        output_tokens: left.output_tokens.saturating_sub(right.output_tokens),
        tool_units: left.tool_units.saturating_sub(right.tool_units),
        image_units: left.image_units.saturating_sub(right.image_units),
        cost_microunits: left.cost_microunits.saturating_sub(right.cost_microunits),
        runs: left.runs.saturating_sub(right.runs),
    }
}

/// Reads one stored column; a negative value is malformed.
pub fn amount_from_i64(value: i64) -> (result: Result<u64, AiError>)
    ensures
        outcome(result) == if value >= 0 {
            Ok::<u64, ErrorModel>(value as u64)
        } else {
            Err(ErrorModel::PersistenceFailed)
        },
{
    if value >= 0 {
        Ok(value as u64)
    } else {
        Err(AiError::PersistenceFailed)
    }
}

/// Writes one column; a value beyond the signed range is refused.
pub fn amount_to_i64(value: u64) -> (result: Result<i64, OrmErrorCode>)
    ensures
        result == if value <= i64::MAX {
            Ok::<i64, OrmErrorCode>(value as i64)
        } else {
            Err(OrmErrorCode::InvalidInput)
        },
{
    if value <= i64::MAX as u64 {
        Ok(value as i64)
    } else {
        Err(OrmErrorCode::InvalidInput)
    }
}

/// Reads stored columns; a negative column is malformed.
pub fn load_amounts(stored: StoredAmounts) -> (result: Result<AiBudgetAmounts, AiError>)
    ensures
        outcome(result) == loaded(stored),
        result matches Ok(amounts) ==> storable(amounts) && as_stored(amounts) == stored,
{
    let input_tokens: u64 = match amount_from_i64(stored.input_tokens) {
        Ok(value) => value,
        Err(error) => return Err(error),
    };
    let output_tokens: u64 = match amount_from_i64(stored.output_tokens) {
        Ok(value) => value,
        Err(error) => return Err(error),
    };
    let tool_units: u64 = match amount_from_i64(stored.tool_units) {
        Ok(value) => value,
        Err(error) => return Err(error),
    };
    let image_units: u64 = match amount_from_i64(stored.image_units) {
        Ok(value) => value,
        Err(error) => return Err(error),
    };
    let cost_microunits: u64 = match amount_from_i64(stored.cost_microunits) {
        Ok(value) => value,
        Err(error) => return Err(error),
    };
    let runs: u64 = match amount_from_i64(stored.runs) {
        Ok(value) => value,
        Err(error) => return Err(error),
    };
    stored_amounts(
        AiBudgetAmounts {
            input_tokens,
            output_tokens,
            tool_units,
            image_units,
            cost_microunits,
            runs,
        },
    )
}

/// Writes amounts to signed columns; amounts beyond them are refused.
pub fn store_amounts(amounts: AiBudgetAmounts) -> (result: Result<StoredAmounts, OrmErrorCode>)
    ensures
        result == if storable(amounts) {
            Ok::<StoredAmounts, OrmErrorCode>(as_stored(amounts))
        } else {
            Err(OrmErrorCode::InvalidInput)
        },
{
    let input_tokens: i64 = match amount_to_i64(amounts.input_tokens) {
        Ok(value) => value,
        Err(code) => return Err(code),
    };
    let output_tokens: i64 = match amount_to_i64(amounts.output_tokens) {
        Ok(value) => value,
        Err(code) => return Err(code),
    };
    let tool_units: i64 = match amount_to_i64(amounts.tool_units) {
        Ok(value) => value,
        Err(code) => return Err(code),
    };
    let image_units: i64 = match amount_to_i64(amounts.image_units) {
        Ok(value) => value,
        Err(code) => return Err(code),
    };
    let cost_microunits: i64 = match amount_to_i64(amounts.cost_microunits) {
        Ok(value) => value,
        Err(code) => return Err(code),
    };
    let runs: i64 = match amount_to_i64(amounts.runs) {
        Ok(value) => value,
        Err(code) => return Err(code),
    };
    Ok(
        StoredAmounts {
            input_tokens,
            output_tokens,
            tool_units,
            image_units,
            cost_microunits,
            runs,
        },
    )
}

/// Taking back what was added restores the amounts.
pub proof fn subtraction_undoes_addition(left: AiBudgetAmounts, right: AiBudgetAmounts)
    requires
        added(left, right) is Ok,
    ensures
        subtracted(added(left, right)->Ok_0, right) == Ok::<AiBudgetAmounts, ErrorModel>(left),
{
}

/// Storing amounts and reading them back gives the same amounts.
pub proof fn stored_amounts_round_trip(amounts: AiBudgetAmounts)
    requires
        storable(amounts),
    ensures
        loaded(as_stored(amounts)) == Ok::<AiBudgetAmounts, ErrorModel>(amounts),
{
}

/// What was used plus what was released accounts for every reserved unit, and
/// nothing is released where use reached the reservation.
pub proof fn released_and_used_cover_reserved(reserved: AiBudgetAmounts, actual: AiBudgetAmounts)
    ensures
        each_unit(excess(reserved, actual), reserved, |released: int, held: int| released <= held),
        covers(actual, reserved) ==> excess(reserved, actual) == zero_amounts(),
        covers(reserved, actual) ==> sum(excess(reserved, actual), actual) == reserved,
{
}

/// The six units of amounts, in one order.
pub open spec fn units(amounts: AiBudgetAmounts) -> Seq<int> {
    seq![
        amounts.input_tokens as int,
        amounts.output_tokens as int,
        amounts.tool_units as int,
        amounts.image_units as int,
        amounts.cost_microunits as int,
        amounts.runs as int,
    ]
}

/// The six stored columns, in the same order.
pub open spec fn columns(stored: StoredAmounts) -> Seq<int> {
    seq![
        stored.input_tokens as int,
        stored.output_tokens as int,
        stored.tool_units as int,
        stored.image_units as int,
        stored.cost_microunits as int,
        stored.runs as int,
    ]
}

/// Adding adds every unit on its own, and succeeds exactly where no sum leaves
/// the stored range.
pub proof fn addition_adds_every_unit(left: AiBudgetAmounts, right: AiBudgetAmounts)
    ensures
        added(left, right) is Ok <==> forall|k: int|
            0 <= k < 6 ==> #[trigger] units(left)[k] + units(right)[k] <= i64::MAX,
        added(left, right) matches Ok(total) ==> forall|k: int|
            0 <= k < 6 ==> #[trigger] units(total)[k] == units(left)[k] + units(right)[k],
        added(left, right) matches Err(error) ==> error == if exists|k: int|
            0 <= k < 6 && #[trigger] units(left)[k] + units(right)[k] > u64::MAX {
            ErrorModel::InvalidConfiguration("AI budget amount overflow"@)
        } else {
            ErrorModel::InvalidConfiguration("AI budget amount exceeds storage"@)
        },
{
    let (l, r) = (units(left), units(right));
    assert(l[0] + r[0] == left.input_tokens + right.input_tokens);
    assert(l[1] + r[1] == left.output_tokens + right.output_tokens);
    assert(l[2] + r[2] == left.tool_units + right.tool_units);
    assert(l[3] + r[3] == left.image_units + right.image_units);
    assert(l[4] + r[4] == left.cost_microunits + right.cost_microunits);
    assert(l[5] + r[5] == left.runs + right.runs);
}

/// Subtracting subtracts every unit on its own, and succeeds exactly where no
/// unit would become negative.
pub proof fn subtraction_subtracts_every_unit(left: AiBudgetAmounts, right: AiBudgetAmounts)
    ensures
        subtracted(left, right) is Ok <==> forall|k: int|
            0 <= k < 6 ==> #[trigger] units(right)[k] <= units(left)[k],
        subtracted(left, right) matches Ok(rest) ==> forall|k: int|
            0 <= k < 6 ==> #[trigger] units(rest)[k] == units(left)[k] - units(right)[k],
        subtracted(left, right) matches Err(error) ==> error == ErrorModel::PersistenceFailed,
        forall|k: int|
            0 <= k < 6 ==> #[trigger] units(excess(left, right))[k] == if units(left)[k]
                >= units(right)[k] {
                units(left)[k] - units(right)[k]
            } else {
                0
            },
{
    let (l, r) = (units(left), units(right));
    assert(r[0] == right.input_tokens && l[0] == left.input_tokens);
    assert(r[1] == right.output_tokens && l[1] == left.output_tokens);
    assert(r[2] == right.tool_units && l[2] == left.tool_units);
    assert(r[3] == right.image_units && l[3] == left.image_units);
    assert(r[4] == right.cost_microunits && l[4] == left.cost_microunits);
    assert(r[5] == right.runs && l[5] == left.runs);
}

/// Amounts cover others, and fit the stored columns, in every unit or not at
/// all.
pub proof fn bounds_hold_in_every_unit(left: AiBudgetAmounts, right: AiBudgetAmounts)
    ensures
        covers(left, right) <==> forall|k: int|
            0 <= k < 6 ==> #[trigger] units(right)[k] <= units(left)[k],
        storable(left) <==> forall|k: int|
            0 <= k < 6 ==> #[trigger] units(left)[k] <= i64::MAX,
{
    let (l, r) = (units(left), units(right));
    assert(r[0] == right.input_tokens && l[0] == left.input_tokens);
    assert(r[1] == right.output_tokens && l[1] == left.output_tokens);
    assert(r[2] == right.tool_units && l[2] == left.tool_units);
    assert(r[3] == right.image_units && l[3] == left.image_units);
    assert(r[4] == right.cost_microunits && l[4] == left.cost_microunits);
    assert(r[5] == right.runs && l[5] == left.runs);
}

/// Stored columns hold exactly the amounts, unit by unit, and read back where
/// none of them is negative.
pub proof fn columns_hold_their_units(amounts: AiBudgetAmounts, stored: StoredAmounts)
    ensures
        storable(amounts) ==> columns(as_stored(amounts)) == units(amounts),
        loaded(stored) is Ok <==> forall|k: int|
            0 <= k < 6 ==> #[trigger] columns(stored)[k] >= 0,
        loaded(stored) matches Ok(read) ==> units(read) == columns(stored),
        loaded(stored) matches Err(error) ==> error == ErrorModel::PersistenceFailed,
{
    let c = columns(stored);
    assert(c[0] == stored.input_tokens && c[1] == stored.output_tokens);
    assert(c[2] == stored.tool_units && c[3] == stored.image_units);
    assert(c[4] == stored.cost_microunits && c[5] == stored.runs);
    if storable(amounts) {
        assert(columns(as_stored(amounts)) =~= units(amounts));
    }
    if loaded(stored) is Ok {
        assert(units(loaded(stored)->Ok_0) =~= columns(stored));
    }
}

} // verus!
