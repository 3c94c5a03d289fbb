//! Accounting periods of budget policies.

use crate::clock::{UtcTime, calendar_second};
use crate::decimal::{integer_text, integer_to_string, padded_text, padded_to_string};
use crate::error::{AiError, ErrorModel, invalid_configuration};
use crate::text::{join, same_text};
use vstd::prelude::*;

verus! {

/// One accounting period: its key and its half-open interval of seconds.
#[derive(Debug, PartialEq, Eq)]
pub struct BudgetPeriod {
    pub key: String,
    pub started_at: i64,
    pub ends_at: i64,
}

/// Mathematical model of [`BudgetPeriod`].
pub struct PeriodModel {
    pub key: Seq<char>,
    pub started_at: int,
    pub ends_at: int,
}

impl View for BudgetPeriod {
    type V = PeriodModel;

    open spec fn view(&self) -> PeriodModel {
        PeriodModel {
            key: self.key@,
            started_at: self.started_at as int,
            ends_at: self.ends_at as int,
        }
    }
}

/// Whether a year of the Gregorian calendar has a leap day.
pub open spec fn is_leap_year(year: int) -> bool {
    year % 4 == 0 && (year % 100 != 0 || year % 400 == 0)
}

/// Days of the Gregorian calendar before a year, up to a constant.
pub open spec fn days_before_year(year: int) -> int {
    let earlier = year - 1;
    365 * year + earlier / 4 - earlier / 100 + earlier / 400
}

/// Days of a common year before a month.
pub open spec fn common_days_before_month(month: int) -> int {
    seq![0int, 31, 59, 90, 120, 151, 181, 212, 243, 273, 304, 334][month - 1]
}

/// First second of a month of the Gregorian calendar, counted from the start of
/// 1970.
pub open spec fn month_start(year: int, month: int) -> int {
    let leap_day: int = if month > 2 && is_leap_year(year) {
        1
    } else {
        0
    };
    86_400 * (days_before_year(year) - days_before_year(1970) + common_days_before_month(month)
        + leap_day)
}

/// The month after the given one.
pub open spec fn following_month(year: int, month: int) -> (int, int) {
    if month == 12 {
        (year + 1, 1)
    } else {
        (year, month + 1)
    }
}

/// Whether a second lies in the month of the calendar.
pub open spec fn month_contains(year: int, month: int, second: int) -> bool {
    let next = following_month(year, month);
    &&& 1 <= month <= 12
    &&& month_start(year, month) <= second < month_start(next.0, next.1)
}

/// Year and month of the calendar that a second lies in.
pub open spec fn month_of(second: int) -> (int, int) {
    choose|year: int, month: int| month_contains(year, month, second)
}

proof fn lemma_month_has_seconds(year: int, month: int)
    requires
        1 <= month <= 12,
    ensures
        ({
            let next = following_month(year, month);
            month_start(year, month) < month_start(next.0, next.1)
        }),
{
}

proof fn lemma_months_follow(year: int, month: int, later_year: int, later_month: int)
    requires
        1 <= month <= 12,
        1 <= later_month <= 12,
        12 * year + month < 12 * later_year + later_month,
    ensures
        ({
            let next = following_month(year, month);
            month_start(next.0, next.1) <= month_start(later_year, later_month)
        }),
    decreases 12 * later_year + later_month - 12 * year - month,
{
    let next = following_month(year, month);
    if next != (later_year, later_month) {
        lemma_months_follow(next.0, next.1, later_year, later_month);
        lemma_month_has_seconds(next.0, next.1);
    }
}

/// A second lies in one month only.
pub proof fn month_of_second_is_unique(year: int, month: int, second: int)
    requires
        month_contains(year, month, second),
    ensures
        month_of(second) == (year, month),
{
    let (other_year, other_month) = month_of(second);
    if 12 * year + month < 12 * other_year + other_month {
        lemma_months_follow(year, month, other_year, other_month);
    }
    if 12 * other_year + other_month < 12 * year + month {
        lemma_months_follow(other_year, other_month, year, month);
    }
}

/// Calendar year and month of a second (`time::OffsetDateTime`'s
/// `from_unix_timestamp`, `date`, `year`, and `month`): the month of the
/// Gregorian calendar that the second lies in. The year is one that the crate's
/// calendar has.
#[verifier::external_body]
pub(crate) fn year_month(second: i64) -> (result: (i32, u8))
    requires
        calendar_second(second as int),
    ensures
        -9999 <= result.0 <= 9999,
        month_contains(result.0 as int, result.1 as int, second as int),
{
    let date = time::OffsetDateTime::from_unix_timestamp(second).unwrap().date();
    (date.year(), u8::from(date.month()))
}

/// First second of a calendar month (`time::Date::from_calendar_date`,
/// `midnight`, `assume_utc`, and `unix_timestamp`): that of the month of the
/// Gregorian calendar, for the years from -9999 to 9999, and none for any other
/// year.
#[verifier::external_body]
pub(crate) fn month_start_second(year: i32, month: u8) -> (result: Option<i64>)
    requires
        1 <= month <= 12,
    ensures
        result is Some <==> -9999 <= year <= 9999,
        result matches Some(second) ==> second == month_start(year as int, month as int),
{
    let month = time::Month::try_from(month).unwrap();
    let date = time::Date::from_calendar_date(year, month, 1);
    date.ok().map(|date| date.midnight().assume_utc().unix_timestamp())
}

/// The fixed-length period that a second lies in.
pub open spec fn fixed_period_model(prefix: Seq<char>, second: int, length: int) -> PeriodModel {
    let started_at = (second / length) * length;
    PeriodModel {
        key: prefix + ":"@ + integer_text(started_at),
        started_at,
        ends_at: started_at + length,
    }
}

/// The period of a calendar month that begins and ends at these seconds.
pub open spec fn month_model(
    year: int,
    month: int,
    start: Option<int>,
    end: Option<int>,
) -> Result<PeriodModel, ErrorModel> {
    match (start, end) {
        (Some(start), Some(end)) => Ok(
            PeriodModel {
                key: "month:"@ + padded_text(year, 4) + "-"@ + padded_text(month, 2),
                started_at: start,
                ends_at: end,
            },
        ),
        _ => Err(ErrorModel::InvalidConfiguration("invalid AI budget month"@)),
    }
}

/// Value of an optional second.
pub open spec fn second_option(second: Option<i64>) -> Option<int> {
    match second {
        Some(second) => Some(second as int),
        None => None,
    }
}

/// The calendar month that a second lies in; the last month of the year 9999
/// has no period.
pub open spec fn month_period_model(second: int) -> Result<PeriodModel, ErrorModel> {
    let (year, month) = month_of(second);
    let (next_year, next_month) = following_month(year, month);
    month_model(
        year,
        month,
        Some(month_start(year, month)),
        if next_year <= 9999 {
            Some(month_start(next_year, next_month))
        } else {
            None
        },
    )
}

/// The period of a policy interval that contains the second.
pub open spec fn period_model(interval: Seq<char>, second: int) -> Result<PeriodModel, ErrorModel> {
    if interval == "minute"@ {
        Ok(fixed_period_model("minute"@, second, 60))
    } else if interval == "hour"@ {
        Ok(fixed_period_model("hour"@, second, 3_600))
    } else if interval == "day"@ {
        Ok(fixed_period_model("day"@, second, 86_400))
    } else if interval == "month"@ {
        month_period_model(second)
    } else if interval == "lifetime"@ {
        Ok(PeriodModel { key: "lifetime"@, started_at: 0, ends_at: i64::MAX as int })
    } else {
        Err(ErrorModel::InvalidConfiguration("unknown AI budget interval"@))
    }
}

/// Model of a period result.
pub open spec fn period_outcome(result: Result<BudgetPeriod, AiError>) -> Result<
    PeriodModel,
    ErrorModel,
> {
    match result {
        Ok(period) => Ok(period@),
        Err(error) => Err(error@),
    }
}

/// The fixed-length period that contains `timestamp`; refused where its bounds
/// exceed 64 bits.
pub fn fixed_period(prefix: &str, timestamp: i64, seconds: i64) -> (result: Result<
    BudgetPeriod,
    AiError,
>)
    requires
        seconds > 0,
    ensures
        ({
            let period = fixed_period_model(prefix@, timestamp as int, seconds as int);
            period_outcome(result) == if i64::MIN <= period.started_at && period.ends_at
                <= i64::MAX {
                Ok::<PeriodModel, ErrorModel>(period)
            } else {
                Err(ErrorModel::InvalidConfiguration("AI budget period overflow"@))
            }
        }),
{
    let remainder: i64 = timestamp % seconds;
    let offset: i64 = if remainder < 0 {
        remainder + seconds
    } else {
        remainder
    };
    proof {
        let t = timestamp as int;
        let s = seconds as int;
        vstd::arithmetic::div_mod::lemma_fundamental_div_mod(t, s);
        assert(offset == t % s) by {
            if t < 0 {
                let r = (-t) % s;
                vstd::arithmetic::div_mod::lemma_fundamental_div_mod(-t, s);
                if r == 0 {
                    assert(t == s * (-((-t) / s))) by (nonlinear_arith)
                        requires
                            -t == s * ((-t) / s) + 0,
                    ;
                    vstd::arithmetic::div_mod::lemma_fundamental_div_mod_converse(
                        t,
                        s,
                        -((-t) / s),
                        0,
                    );
                } else {
                    assert(t == s * (-((-t) / s) - 1) + (s - r)) by (nonlinear_arith)
                        requires
                            -t == s * ((-t) / s) + r,
                    ;
                    vstd::arithmetic::div_mod::lemma_fundamental_div_mod_converse(
                        t,
                        s,
                        -((-t) / s) - 1,
                        s - r,
                    );
                }
            }
        }
        assert((t / s) * s == t - t % s) by (nonlinear_arith)
            requires
                t == s * (t / s) + t % s,
        ;
    }
    let started_at: i64 = match timestamp.checked_sub(offset) {
        Some(value) => value,
        None => return Err(invalid_configuration("AI budget period overflow")),
    };
    let ends_at: i64 = match started_at.checked_add(seconds) {
        Some(value) => value,
        None => return Err(invalid_configuration("AI budget period overflow")),
    };
    let number = integer_to_string(started_at);
    let label = join(prefix, ":");
    Ok(BudgetPeriod { key: join(label.as_str(), number.as_str()), started_at, ends_at })
}

/// The month after a calendar month.
pub fn next_calendar_month(year: i32, month: u8) -> (next: (i32, u8))
    requires
        -9999 <= year <= 9999,
        1 <= month <= 12,
    ensures
        (next.0 as int, next.1 as int) == following_month(year as int, month as int),
        -9999 <= next.0 <= 10_000,
        1 <= next.1 <= 12,
{
    if month == 12 {
        (year + 1, 1)
    } else {
        (year, month + 1)
    }
}

/// The period of a calendar month, from the first seconds of that month and of
/// the next one; refused where either has none.
pub fn calendar_month(year: i32, month: u8, start: Option<i64>, end: Option<i64>) -> (result:
    Result<BudgetPeriod, AiError>)
    ensures
        period_outcome(result) == month_model(
            year as int,
            month as int,
            second_option(start),
            second_option(end),
        ),
{
    let (started_at, ends_at): (i64, i64) = match (start, end) {
        (Some(start), Some(end)) => (start, end),
        _ => return Err(invalid_configuration("invalid AI budget month")),
    };
    let year_text = padded_to_string(year, 4);
    let month_text = padded_to_string(month as i32, 2);
    let key = join("month:", year_text.as_str());
    let key = join(key.as_str(), "-");
    Ok(BudgetPeriod { key: join(key.as_str(), month_text.as_str()), started_at, ends_at })
}

/// The calendar month that contains `now`.
pub fn month_period(now: UtcTime) -> (result: Result<BudgetPeriod, AiError>)
    requires
        now.wf(),
    ensures
        period_outcome(result) == month_period_model(now.second()),
        result matches Ok(period) ==> period.started_at <= now.second() < period.ends_at,
{
    let (year, month) = year_month(now.unix_timestamp());
    proof {
        month_of_second_is_unique(year as int, month as int, now.second());
    }
    let (next_year, next_month) = next_calendar_month(year, month);
    let start: Option<i64> = month_start_second(year, month);
    let end: Option<i64> = month_start_second(next_year, next_month);
    calendar_month(year, month, start, end)
}

/// The accounting period of a policy interval that contains `now`.
pub fn budget_period(interval: &str, now: UtcTime) -> (result: Result<BudgetPeriod, AiError>)
    requires
        now.wf(),
    ensures
        period_outcome(result) == period_model(interval@, now.second()),
        result matches Ok(period) ==> (interval@ == "lifetime"@ || period.started_at
            <= now.second() < period.ends_at),
{
    let timestamp: i64 = now.unix_timestamp();
    if same_text(interval, "minute") {
        fixed_period("minute", timestamp, 60)
    } else if same_text(interval, "hour") {
        fixed_period("hour", timestamp, 3_600)
    } else if same_text(interval, "day") {
        fixed_period("day", timestamp, 86_400)
    } else if same_text(interval, "month") {
        month_period(now)
    } else if same_text(interval, "lifetime") {
        Ok(BudgetPeriod { key: "lifetime".to_owned(), started_at: 0, ends_at: i64::MAX })
    } else {
        Err(invalid_configuration("unknown AI budget interval"))
    }
}

/// A period of minutes, hours, or days contains its second, begins at a whole
/// multiple of its length, and is named by its interval and its beginning; a
/// lifetime has no end; and there are no other intervals but months.
pub proof fn periods_are_aligned_and_contain_their_second(interval: Seq<char>, second: int)
    ensures
        interval == "minute"@ ==> aligned_period(interval, second, 60),
        interval == "hour"@ ==> aligned_period(interval, second, 3_600),
        interval == "day"@ ==> aligned_period(interval, second, 86_400),
        interval == "lifetime"@ ==> period_model(interval, second) == Ok::<
            PeriodModel,
            ErrorModel,
        >(PeriodModel { key: "lifetime"@, started_at: 0, ends_at: i64::MAX as int }),
        interval != "minute"@ && interval != "hour"@ && interval != "day"@ && interval
            != "month"@ && interval != "lifetime"@ ==> period_model(interval, second) == Err::<
            PeriodModel,
            ErrorModel,
        >(ErrorModel::InvalidConfiguration("unknown AI budget interval"@)),
{
    reveal_strlit("minute");
    reveal_strlit("hour");
    reveal_strlit("day");
    reveal_strlit("month");
    reveal_strlit("lifetime");
    assert("minute"@.len() == 6 && "hour"@.len() == 4 && "day"@.len() == 3);
    assert("month"@.len() == 5 && "lifetime"@.len() == 8);
}

/// Whether the period of the interval is the aligned one of this length.
pub open spec fn aligned_period(interval: Seq<char>, second: int, length: int) -> bool {
    &&& period_model(interval, second) matches Ok(period)
    &&& period.started_at <= second < period.ends_at
    &&& period.ends_at == period.started_at + length
    &&& period.started_at % length == 0
    &&& period.key == interval + ":"@ + integer_text(period.started_at)
}

/// A month's period is that of the calendar month of its second: it contains
/// the second, ends where the next month begins, and is named by year and
/// month.
pub proof fn month_periods_are_calendar_months(year: int, month: int, second: int)
    requires
        month_contains(year, month, second),
        !(year >= 9999 && month == 12),
        year <= 9999,
    ensures
        ({
            let next = if month == 12 {
                (year + 1, 1int)
            } else {
                (year, month + 1)
            };
            &&& period_model("month"@, second) matches Ok(period)
            &&& period.started_at == month_start(year, month)
            &&& period.ends_at == month_start(next.0, next.1)
            &&& period.started_at <= second < period.ends_at
            &&& period.key == "month:"@ + padded_text(year, 4) + "-"@ + padded_text(month, 2)
        }),
{
    month_of_second_is_unique(year, month, second);
    reveal_strlit("minute");
    reveal_strlit("hour");
    reveal_strlit("day");
    reveal_strlit("month");
    assert("minute"@.len() == 6 && "hour"@.len() == 4 && "day"@.len() == 3);
    assert("month"@.len() == 5);
}

/// Months follow each other: a year has twelve, each as long as the calendar
/// says, and a common year has 365 days, a leap year 366.
pub proof fn months_have_their_days(year: int)
    ensures
        month_start(1970, 1) == 0,
        month_start(year, 2) - month_start(year, 1) == 31 * 86_400,
        month_start(year, 3) - month_start(year, 2) == (if is_leap_year(year) {
            29
        } else {
            28int
        }) * 86_400,
        month_start(year, 4) - month_start(year, 3) == 31 * 86_400,
        month_start(year, 5) - month_start(year, 4) == 30 * 86_400,
        month_start(year, 6) - month_start(year, 5) == 31 * 86_400,
        month_start(year, 7) - month_start(year, 6) == 30 * 86_400,
        month_start(year, 8) - month_start(year, 7) == 31 * 86_400,
        month_start(year, 9) - month_start(year, 8) == 31 * 86_400,
        month_start(year, 10) - month_start(year, 9) == 30 * 86_400,
        month_start(year, 11) - month_start(year, 10) == 31 * 86_400,
        month_start(year, 12) - month_start(year, 11) == 30 * 86_400,
        month_start(year + 1, 1) - month_start(year, 12) == 31 * 86_400,
        is_leap_year(year) <==> year % 400 == 0 || year % 4 == 0 && year % 100 != 0,
{
}

} // verus!
