use vstd::prelude::*;
use chrono::{Datelike, NaiveDate, Timelike};
use crate::error::AppError;
use crate::text::{decimal, digit_char};

verus! {

/// A calendar date of the proleptic Gregorian calendar, as `chrono::NaiveDate`
/// holds it (year, month 1–12, day of month).
#[derive(Clone, Copy, Debug, PartialEq, Eq)]
pub struct CalDate {
    pub year: i32,
    pub month: u32,
    pub day: u32,
}

/// The first year that `NaiveDate` represents.
pub open spec fn min_year() -> int {
    -262143
}

/// The last year that `NaiveDate` represents.
pub open spec fn max_year() -> int {
    262142
}

pub open spec fn is_leap_year(y: int) -> bool {
    (y % 4 == 0 && y % 100 != 0) || y % 400 == 0
}

pub open spec fn days_in_month(y: int, m: int) -> int {
    if m == 2 {
        if is_leap_year(y) {
            29
        } else {
            28
        }
    } else if m == 4 || m == 6 || m == 9 || m == 11 {
        30
    } else {
        31
    }
}

/// The day exists and its year lies in the range `NaiveDate` covers.
pub open spec fn valid_ymd(y: int, m: int, d: int) -> bool {
    &&& min_year() <= y <= max_year()
    &&& 1 <= m <= 12
    &&& 1 <= d <= days_in_month(y, m)
}

pub open spec fn valid_date(d: CalDate) -> bool {
    valid_ymd(d.year as int, d.month as int, d.day as int)
}

pub open spec fn ymd(y: int, m: int, d: int) -> CalDate {
    CalDate { year: y as i32, month: m as u32, day: d as u32 }
}

/// The day before `d`, when it is still representable.
pub open spec fn spec_previous_day(d: CalDate) -> Option<CalDate> {
    if d.day > 1 {
        Some(ymd(d.year as int, d.month as int, d.day - 1))
    } else if d.month > 1 {
        Some(ymd(d.year as int, d.month - 1, days_in_month(d.year as int, d.month - 1)))
    } else if d.year > min_year() {
        Some(ymd(d.year - 1, 12, 31))
    } else {
        None
    }
}

/// `a` comes strictly before `b` in the calendar.
pub open spec fn date_before(a: CalDate, b: CalDate) -> bool {
    a.year < b.year || (a.year == b.year && (a.month < b.month || (a.month == b.month && a.day < b.day)))
}

/// What `NaiveDate::parse_from_str(text, "%Y-%m-%d")` yields, as (year, month, day).
pub uninterp spec fn ymd_parse(text: Seq<char>) -> Option<(int, int, int)>;

/// `s` with zeros in front, up to `width` characters.
pub open spec fn zero_padded(s: Seq<char>, width: nat) -> Seq<char> {
    if s.len() >= width {
        s
    } else {
        Seq::new((width - s.len()) as nat, |i: int| '0') + s
    }
}

/// How `%Y` writes a year: four digits for the years 0 to 9999; any other
/// year with its sign and at least four digits.
pub open spec fn year_text(y: int) -> Seq<char> {
    if 0 <= y <= 9999 {
        four_digits(y)
    } else if y < 0 {
        seq!['-'] + zero_padded(decimal((-y) as nat), 4)
    } else {
        seq!['+'] + zero_padded(decimal(y as nat), 4)
    }
}

/// What `NaiveDate::format("%Y-%m-%d")` writes for a date.
pub open spec fn ymd_text(y: int, m: int, d: int) -> Seq<char> {
    year_text(y) + seq!['-'] + two_digits(m) + seq!['-'] + two_digits(d)
}

/// `n` (0 to 99) written with two digits.
pub open spec fn two_digits(n: int) -> Seq<char> {
    seq![digit_char(n / 10), digit_char(n % 10)]
}

/// `n` (0 to 9999) written with four digits.
pub open spec fn four_digits(n: int) -> Seq<char> {
    seq![digit_char(n / 1000), digit_char((n / 100) % 10), digit_char((n / 10) % 10), digit_char(n % 10)]
}

/// `chrono::NaiveDate::from_ymd_opt`, read back with `year()`, `month()` and
/// `day()`. Claimed, as chrono documents it: the date is made exactly when the
/// calendar day exists and the year lies in `NaiveDate`'s range.
#[verifier::external_body]
fn chrono_from_ymd(year: i32, month: u32, day: u32) -> (r: Option<CalDate>)
    ensures
        r == (if valid_ymd(year as int, month as int, day as int) {
            Some(CalDate { year, month, day })
        } else {
            None
        }),
{
    let d = NaiveDate::from_ymd_opt(year, month, day)?;
    Some(CalDate { year: d.year(), month: d.month(), day: d.day() })
}

/// `chrono::NaiveDate::pred_opt` on a valid date. Claimed, as chrono documents
/// it: the previous calendar day, and `None` only on the first representable day.
#[verifier::external_body]
fn chrono_previous_day(date: CalDate) -> (r: Option<CalDate>)
    requires
        valid_date(date),
    ensures
        r == spec_previous_day(date),
{
    let d = NaiveDate::from_ymd_opt(date.year, date.month, date.day)?;
    let p = d.pred_opt()?;
    Some(CalDate { year: p.year(), month: p.month(), day: p.day() })
}

/// `chrono::Local::now().date_naive()`: today's date on this machine's clock.
/// It depends on the clock; claimed only that it is a valid `NaiveDate`.
#[verifier::external_body]
pub(crate) fn today_local() -> (r: CalDate)
    ensures
        valid_date(r),
{
    let d = chrono::Local::now().date_naive();
    CalDate { year: d.year(), month: d.month(), day: d.day() }
}

/// The hour (0–23) of `chrono::Local::now().time()`. It depends on the clock;
/// claimed only that it is below 24.
#[verifier::external_body]
pub(crate) fn local_hour() -> (h: u32)
    ensures
        h < 24,
{
    chrono::Local::now().time().hour()
}

/// `chrono::NaiveDate::parse_from_str(text, "%Y-%m-%d")`, read back as a
/// `CalDate`. Claimed: the result is `ymd_parse` of the text, and a parsed
/// date is a valid `NaiveDate`.
#[verifier::external_body]
pub(crate) fn parse_ymd(text: &str) -> (r: Option<CalDate>)
    ensures
        match r {
            Some(d) => ymd_parse(text@) == Some((d.year as int, d.month as int, d.day as int)) && valid_date(d),
            None => ymd_parse(text@) is None,
        },
{
    let d = NaiveDate::parse_from_str(text, "%Y-%m-%d").ok()?;
    Some(CalDate { year: d.year(), month: d.month(), day: d.day() })
}

/// `NaiveDate::format("%Y-%m-%d").to_string()` of a valid date. Claimed: the
/// text is `ymd_text` of the date: the zero-padded `YYYY-MM-DD` for the years
/// 0 to 9999, any other year written with its sign and at least four digits.
#[verifier::external_body]
pub(crate) fn format_ymd(date: CalDate) -> (s: String)
    requires
        valid_date(date),
    ensures
        s@ == ymd_text(date.year as int, date.month as int, date.day as int),
{
    let d = NaiveDate::from_ymd_opt(date.year, date.month, date.day).unwrap();
    d.format("%Y-%m-%d").to_string()
}

/// Whether `a` comes strictly before `b` (the order of `NaiveDate`).
pub fn is_before(a: CalDate, b: CalDate) -> (r: bool)
    ensures
        r == date_before(a, b),
{
    a.year < b.year || (a.year == b.year && (a.month < b.month || (a.month == b.month && a.day < b.day)))
}

/// A number that grows with the date: later years, then later months, then
/// later days give larger numbers (a month never reaches 512 in it).
pub open spec fn day_key(d: CalDate) -> int {
    d.year * 512 + d.month * 32 + d.day
}

/// Law: `is_before` is a strict total order on dates. No date comes before
/// itself; of two different dates exactly one comes before the other; and
/// coming before is transitive.
pub proof fn law_is_before_is_a_strict_total_order(a: CalDate, b: CalDate, c: CalDate, ab: bool, ba: bool, bc: bool, ac: bool)
    requires
        call_ensures(is_before, (a, b), ab),
        call_ensures(is_before, (b, a), ba),
        call_ensures(is_before, (b, c), bc),
        call_ensures(is_before, (a, c), ac),
    ensures
        a == b ==> !ab,
        a != b ==> (ab <==> !ba),
        ab && bc ==> ac,
{
}

/// Law: on valid dates, `a` comes before `b` exactly when its year is
/// earlier, or its month in the same year, or its day in the same month.
/// In particular an earlier day of the same month comes before.
pub proof fn law_is_before_follows_the_calendar(a: CalDate, b: CalDate, r: bool)
    requires
        valid_date(a),
        valid_date(b),
        call_ensures(is_before, (a, b), r),
    ensures
        r <==> day_key(a) < day_key(b),
        a.year == b.year && a.month == b.month && a.day < b.day ==> r,
{
}

/// A range of days, both ends included.
#[derive(Clone, Copy, Debug, PartialEq, Eq)]
pub struct MonthRange {
    pub start: CalDate,
    pub end: CalDate,
}

/// The month before month `m` of year `y`, as (year, month).
pub open spec fn previous_month(y: int, m: int) -> (int, int) {
    if m == 1 {
        (y - 1, 12)
    } else {
        (y, m - 1)
    }
}

/// The whole month that contains `d`.
pub open spec fn spec_month_of(d: CalDate) -> MonthRange {
    MonthRange {
        start: ymd(d.year as int, d.month as int, 1),
        end: ymd(d.year as int, d.month as int, days_in_month(d.year as int, d.month as int)),
    }
}

/// The whole month before the one that contains `d`.
pub open spec fn spec_previous_month_of(d: CalDate) -> MonthRange {
    let (py, pm) = previous_month(d.year as int, d.month as int);
    MonthRange { start: ymd(py, pm, 1), end: ymd(py, pm, days_in_month(py, pm)) }
}

/// What `calculate_month_ranges` gives for `today`: the month of `today` and
/// the one before it, or the error of the bound that cannot be computed at
/// the ends of the calendar.
pub open spec fn month_ranges_outcome(today: CalDate, r: Result<(MonthRange, MonthRange), AppError>) -> bool {
    &&& !(today.month < 12 || today.year < max_year()) ==> (r matches Err(AppError::Internal(m)) && m@
        == "Failed to calculate current month end"@)
    &&& (today.month < 12 || today.year < max_year()) && !(today.month > 1 || today.year > min_year()) ==> (
    r matches Err(AppError::Internal(m)) && m@ == "Failed to calculate previous month start"@)
    &&& (today.month < 12 || today.year < max_year()) && (today.month > 1 || today.year > min_year()) ==> r
        == Ok::<(MonthRange, MonthRange), AppError>((spec_month_of(today), spec_previous_month_of(today)))
}

/// What `current_month_bounds` gives for `today`: the month of `today`, or an
/// error in the last month of the calendar.
pub open spec fn month_bounds_outcome(today: CalDate, r: Result<MonthRange, AppError>) -> bool {
    &&& (today.month < 12 || today.year < max_year()) ==> r == Ok::<MonthRange, AppError>(spec_month_of(today))
    &&& !(today.month < 12 || today.year < max_year()) ==> (r matches Err(AppError::Internal(m)) && m@
        == "无法创建下月开始日期"@)
}

/// The first day of the month after the one that contains `d`, if representable.
fn next_month_start(d: CalDate) -> (r: Option<CalDate>)
    requires
        valid_date(d),
    ensures
        r == (if d.month < 12 {
            Some(ymd(d.year as int, d.month + 1, 1))
        } else if d.year < max_year() {
            Some(ymd(d.year + 1, 1, 1))
        } else {
            None
        }),
{
    if d.month == 12 {
        if d.year < 262142 {
            chrono_from_ymd(d.year + 1, 1, 1)
        } else {
            None
        }
    } else {
        chrono_from_ymd(d.year, d.month + 1, 1)
    }
}

/// The bounds of the current month and of the previous one, for a customer's
/// monthly statistics.
///
/// Fails with `Internal` when a bound falls outside the dates `NaiveDate`
/// represents: "Failed to calculate current month end" (December of the last
/// year), then "Failed to calculate previous month start" and "Failed to
/// calculate previous month end" (January of the first year).
pub fn calculate_month_ranges(today: CalDate) -> (r: Result<(MonthRange, MonthRange), AppError>)
    requires
        valid_date(today),
    ensures
        month_ranges_outcome(today, r),
{
    let current_month_start = match chrono_from_ymd(today.year, today.month, 1) {
        Some(d) => d,
        None => return Err(AppError::internal("Failed to calculate current month start")),
    };
    let next_start = match next_month_start(today) {
        Some(d) => d,
        None => return Err(AppError::internal("Failed to calculate current month end")),
    };
    let current_month_end = match chrono_previous_day(next_start) {
        Some(d) => d,
        None => return Err(AppError::internal("Failed to calculate current month end")),
    };
    let previous_month_start = if today.month == 1 {
        if today.year <= -262143 {
            return Err(AppError::internal("Failed to calculate previous month start"));
        }
        chrono_from_ymd(today.year - 1, 12, 1)
    } else {
        chrono_from_ymd(today.year, today.month - 1, 1)
    };
    let previous_month_start = match previous_month_start {
        Some(d) => d,
        None => return Err(AppError::internal("Failed to calculate previous month start")),
    };
    let previous_month_end = match chrono_previous_day(current_month_start) {
        Some(d) => d,
        None => return Err(AppError::internal("Failed to calculate previous month end")),
    };
    Ok((
        MonthRange { start: current_month_start, end: current_month_end },
        MonthRange { start: previous_month_start, end: previous_month_end },
    ))
}

/// The first and last day of the current month, for the monthly
/// reconciliation statements.
///
/// Fails with `Internal("无法创建下月开始日期")` in December of the last
/// representable year.
pub fn current_month_bounds(today: CalDate) -> (r: Result<MonthRange, AppError>)
    requires
        valid_date(today),
    ensures
        month_bounds_outcome(today, r),
{
    let start = match chrono_from_ymd(today.year, today.month, 1) {
        Some(d) => d,
        None => return Err(AppError::internal("无法创建当月开始日期")),
    };
    let next_start = match next_month_start(today) {
        Some(d) => d,
        None => return Err(AppError::internal("无法创建下月开始日期")),
    };
    let end = match chrono_previous_day(next_start) {
        Some(d) => d,
        None => return Err(AppError::internal("无法计算当月结束日期")),
    };
    Ok(MonthRange { start, end })
}

/// The first and last day of the month of `date`, written as `YYYY-MM-DD`.
pub fn month_range_text(date: CalDate) -> (r: (String, String))
    requires
        valid_date(date),
        date.month < 12 || date.year < max_year(),
    ensures
        r.0@ == ymd_text(date.year as int, date.month as int, 1),
        r.1@ == ymd_text(date.year as int, date.month as int, days_in_month(date.year as int, date.month as int)),
{
    let range = match current_month_bounds(date) {
        Ok(range) => range,
        Err(_) => {
            proof { assert(false); }
            MonthRange { start: date, end: date }
        }
    };
    (format_ymd(range.start), format_ymd(range.end))
}

/// What `get_month_range` gives for a month `m` of year `y`: its first and
/// last day as `ymd_text` writes them, or `None` for the December of the last year `NaiveDate`
/// represents, whose end cannot be computed.
pub open spec fn month_range_result(y: int, m: int, r: Option<(String, String)>) -> bool {
    &&& (m < 12 || y < max_year()) <==> r is Some
    &&& r matches Some((a, b)) ==> a@ == ymd_text(y, m, 1) && b@ == ymd_text(y, m, days_in_month(y, m))
}

/// The month, written as `YYYY-MM-DD` bounds, of the date in `date_text`
/// (format `%Y-%m-%d`); when the text does not parse, of today's date on
/// this machine's clock (some valid date).
///
/// `None` when that month is the December of the last year `NaiveDate`
/// represents: its end cannot be computed.
pub fn get_month_range(date_text: &str) -> (r: Option<(String, String)>)
    ensures
        ymd_parse(date_text@) matches Some((y, m, _d)) ==> month_range_result(y, m, r),
        ymd_parse(date_text@) is None ==> exists|today: CalDate|
            #[trigger] valid_date(today) && month_range_result(today.year as int, today.month as int, r),
{
    let date = match parse_ymd(date_text) {
        Some(d) => d,
        None => today_local(),
    };
    if date.month == 12 && date.year >= 262142 {
        assert(valid_date(date) && month_range_result(date.year as int, date.month as int, None));
        return None;
    }
    let r = Some(month_range_text(date));
    assert(valid_date(date) && month_range_result(date.year as int, date.month as int, r));
    r
}

/// Whether the price board shows the previous day's announcements: before
/// noon, when no date was asked for.
pub fn consider_previous_day(hour: u32, date_given: bool) -> (r: bool)
    ensures
        r == (hour < 12 && !date_given),
{
    hour < 12 && !date_given
}


/// The day a dashboard is asked for: none, or a `YYYY-MM-DD` date; any other
/// text is refused with `Validation("Invalid date format. Use YYYY-MM-DD")`.
pub fn dashboard_date(date: Option<&str>) -> (r: Result<Option<CalDate>, AppError>)
    ensures
        match date {
            None => r == Ok::<Option<CalDate>, AppError>(None),
            Some(t) => match ymd_parse(t@) {
                Some((y, m, d)) => r matches Ok(Some(c)) && c.year == y && c.month == m && c.day == d,
                None => r matches Err(AppError::Validation(msg)) && msg@ == "Invalid date format. Use YYYY-MM-DD"@,
            },
        },
{
    match date {
        None => Ok(None),
        Some(t) => match parse_ymd(t) {
            Some(d) => Ok(Some(d)),
            None => Err(AppError::validation("Invalid date format. Use YYYY-MM-DD")),
        },
    }
}


/// The current and the previous month, on this machine's clock: what
/// `calculate_month_ranges` gives for some valid date (today's).
pub fn current_and_previous_month() -> (r: Result<(MonthRange, MonthRange), AppError>)
    ensures
        exists|today: CalDate| valid_date(today) && month_ranges_outcome(today, r),
{
    let today = today_local();
    calculate_month_ranges(today)
}

/// The current month, on this machine's clock: what `current_month_bounds`
/// gives for some valid date (today's).
pub fn this_month_bounds() -> (r: Result<MonthRange, AppError>)
    ensures
        exists|today: CalDate| valid_date(today) && month_bounds_outcome(today, r),
{
    let today = today_local();
    current_month_bounds(today)
}

} // verus!
