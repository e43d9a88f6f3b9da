use vstd::prelude::*;
use crate::decimal::{Amount, value28, well_formed};

verus! {

/// How a dashboard trend is written.
#[derive(Clone, Copy, Debug, PartialEq, Eq, Structural)]
pub enum TrendText {
    /// As the percentage of change against the previous month.
    Change,
    /// Growth from nothing: `+100%`.
    FromNothing,
    /// Nothing then and nothing now: `0%`.
    Flat,
}

impl TrendText {
    /// The fixed text of a trend, when it has one.
    pub fn fixed_text(&self) -> (t: Option<&'static str>)
        ensures
            *self == TrendText::Change ==> t is None,
            *self == TrendText::FromNothing ==> (t matches Some(s) && s@ == "+100%"@),
            *self == TrendText::Flat ==> (t matches Some(s) && s@ == "0%"@),
    {
        match self {
            TrendText::Change => None,
            TrendText::FromNothing => Some("+100%"),
            TrendText::Flat => Some("0%"),
        }
    }
}

/// The trend text of a figure from whether it was positive last month and
/// whether it is positive now.
pub open spec fn trend_case(previous_positive: bool, current_positive: bool) -> TrendText {
    if previous_positive {
        TrendText::Change
    } else if current_positive {
        TrendText::FromNothing
    } else {
        TrendText::Flat
    }
}

/// The trend of the number of orders: how it is written, and whether it went
/// up (or stayed).
pub fn orders_trend(current: i64, previous: i64) -> (r: (TrendText, bool))
    ensures
        r.0 == trend_case(previous > 0, current > 0),
        r.1 == (current >= previous),
{
    let case = if previous > 0 {
        TrendText::Change
    } else if current > 0 {
        TrendText::FromNothing
    } else {
        TrendText::Flat
    };
    (case, current >= previous)
}

/// The trend of the amount spent: how it is written, and whether it went up
/// (or stayed), on the numbers the amounts denote.
pub fn spending_trend(current: Amount, previous: Amount) -> (r: (TrendText, bool))
    requires
        well_formed(current),
        well_formed(previous),
    ensures
        r.0 == trend_case(value28(previous) > 0, value28(current) > 0),
        r.1 == (value28(current) >= value28(previous)),
{
    let case = if previous.is_positive() {
        TrendText::Change
    } else if current.is_positive() {
        TrendText::FromNothing
    } else {
        TrendText::Flat
    };
    (case, current.at_least(previous))
}

/// How the trend of the return rate is written: the rate of a month is
/// positive exactly when that month has orders and returns.
pub fn return_rate_trend_text(current_returns: i64, current_orders: i64, previous_returns: i64, previous_orders: i64) -> (r:
    TrendText)
    ensures
        r == trend_case(previous_orders > 0 && previous_returns > 0, current_orders > 0 && current_returns > 0),
{
    if previous_orders > 0 && previous_returns > 0 {
        TrendText::Change
    } else if current_orders > 0 && current_returns > 0 {
        TrendText::FromNothing
    } else {
        TrendText::Flat
    }
}

/// Law: the number of orders is written as its percentage of change whenever
/// last month had orders, whatever this month has (a fall to nothing is a
/// change of -100%); as `+100%` when last month had none and this month has
/// some; and as `0%` when neither had any. It is up exactly when this month
/// has at least as many orders as last month.
pub proof fn law_orders_trend_text(current: i64, previous: i64, r: (TrendText, bool))
    requires
        call_ensures(orders_trend, (current, previous), r),
    ensures
        previous > 0 ==> r.0 == TrendText::Change,
        previous <= 0 && current > 0 ==> r.0 == TrendText::FromNothing,
        previous <= 0 && current <= 0 ==> r.0 == TrendText::Flat,
        r.1 <==> current >= previous,
{
}

/// Law: with last month's orders fixed and positive, the way the trend is
/// written does not depend on this month's orders.
pub proof fn law_orders_trend_text_ignores_current_after_orders(
    previous: i64,
    current1: i64,
    current2: i64,
    r1: (TrendText, bool),
    r2: (TrendText, bool),
)
    requires
        previous > 0,
        call_ensures(orders_trend, (current1, previous), r1),
        call_ensures(orders_trend, (current2, previous), r2),
    ensures
        r1.0 == r2.0,
{
}

/// Law: the amount spent is written as its percentage of change whenever last
/// month's amount is positive, whatever this month's is; as `+100%` when only
/// this month's is positive; and as `0%` when neither is. It is up exactly when
/// this month's amount is at least last month's.
pub proof fn law_spending_trend_text(current: Amount, previous: Amount, r: (TrendText, bool))
    requires
        well_formed(current),
        well_formed(previous),
        call_ensures(spending_trend, (current, previous), r),
    ensures
        value28(previous) > 0 ==> r.0 == TrendText::Change,
        value28(previous) <= 0 && value28(current) > 0 ==> r.0 == TrendText::FromNothing,
        value28(previous) <= 0 && value28(current) <= 0 ==> r.0 == TrendText::Flat,
        r.1 <==> value28(current) >= value28(previous),
{
}

/// Law: the return rate is written as its change whenever last month had
/// orders and returns (a positive rate), whatever this month has; as `+100%`
/// when only this month's rate is positive; and as `0%` when neither is.
pub proof fn law_return_rate_trend_text(
    current_returns: i64,
    current_orders: i64,
    previous_returns: i64,
    previous_orders: i64,
    r: TrendText,
)
    requires
        call_ensures(return_rate_trend_text, (current_returns, current_orders, previous_returns, previous_orders), r),
    ensures
        previous_orders > 0 && previous_returns > 0 ==> r == TrendText::Change,
        !(previous_orders > 0 && previous_returns > 0) && current_orders > 0 && current_returns > 0 ==> r
            == TrendText::FromNothing,
        !(previous_orders > 0 && previous_returns > 0) && !(current_orders > 0 && current_returns > 0) ==> r
            == TrendText::Flat,
{
}

} // verus!
