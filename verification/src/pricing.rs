use vstd::prelude::*;
use crate::decimal::{
    Amount, add_exact, lemma_add_value, lemma_mul_value, lemma_sub_value, mul_exact, pow10, spec_add, spec_mul, spec_sub,
    sub_exact, value28, well_formed, zero_amount,
};
use crate::error::AppError;

verus! {

/// The sum `((0 + xs[0]) + xs[1]) + ...` computed with decimal addition.
pub open spec fn spec_sum(xs: Seq<Amount>) -> Amount
    decreases xs.len(),
{
    if xs.len() == 0 {
        zero_amount()
    } else {
        spec_add(spec_sum(xs.drop_last()), xs.last())
    }
}

/// Every step of `spec_sum` is an exact addition.
pub open spec fn sum_exact(xs: Seq<Amount>) -> bool {
    forall|k: int| 0 <= k < xs.len() ==> add_exact(#[trigger] spec_sum(xs.take(k)), xs[k])
}

/// The sum of the numbers denoted by `xs` (each times 10^28).
pub open spec fn value_sum(xs: Seq<Amount>) -> int
    decreases xs.len(),
{
    if xs.len() == 0 {
        0
    } else {
        value_sum(xs.drop_last()) + value28(xs.last())
    }
}

/// Adds up `xs` from left to right, starting from `Decimal::ZERO`.
pub fn sum_amounts(xs: &Vec<Amount>) -> (total: Amount)
    requires
        sum_exact(xs@),
    ensures
        total == spec_sum(xs@),
        well_formed(total),
{
    let mut total = Amount::zero();
    let mut i: usize = 0;
    assert(xs@.take(0) =~= Seq::<Amount>::empty());
    while i < xs.len()
        invariant
            i <= xs.len(),
            sum_exact(xs@),
            total == spec_sum(xs@.take(i as int)),
            well_formed(total),
        decreases xs.len() - i,
    {
        assert(add_exact(spec_sum(xs@.take(i as int)), xs@[i as int]));
        total = total.add(xs[i]);
        assert(xs@.take(i as int + 1).drop_last() =~= xs@.take(i as int));
        i = i + 1;
    }
    assert(xs@.take(xs.len() as int) =~= xs@);
    total
}

/// The decimal sum denotes the sum of the numbers.
pub proof fn lemma_sum_value(xs: Seq<Amount>)
    requires
        sum_exact(xs),
    ensures
        value28(spec_sum(xs)) == value_sum(xs),
    decreases xs.len(),
{
    if xs.len() > 0 {
        let init = xs.drop_last();
        assert forall|k: int| 0 <= k < init.len() implies add_exact(#[trigger] spec_sum(init.take(k)), init[k]) by {
            assert(init.take(k) =~= xs.take(k));
            assert(add_exact(spec_sum(xs.take(k)), xs[k]));
        }
        lemma_sum_value(init);
        assert(xs.take(xs.len() - 1) =~= init);
        assert(add_exact(spec_sum(xs.take(xs.len() - 1)), xs[xs.len() - 1]));
        lemma_add_value(spec_sum(init), xs.last());
    }
}

/// One line of an order, as the customer submits it and as it is priced.
#[derive(Clone, Copy, Debug, PartialEq, Eq)]
pub struct OrderLine {
    /// The market's reference price of the product (its average price).
    pub unit_price: Amount,
    /// The customer's discount rate for the product's category (`1.00` = none).
    pub discount_rate: Amount,
    pub ordered_qty: Amount,
}

/// The amounts stored for one order line.
#[derive(Clone, Copy, Debug, PartialEq, Eq)]
pub struct PricedLine {
    /// `unit_price × ordered_qty`.
    pub ordered_amount: Amount,
    /// `unit_price × discount_rate`.
    pub discounted_unit_price: Amount,
}

pub open spec fn spec_priced_line(l: OrderLine) -> PricedLine {
    PricedLine {
        ordered_amount: spec_mul(l.unit_price, l.ordered_qty),
        discounted_unit_price: spec_mul(l.unit_price, l.discount_rate),
    }
}

/// The line amounts `unit_price × ordered_qty` of an order.
pub open spec fn line_amounts(lines: Seq<OrderLine>) -> Seq<Amount> {
    lines.map_values(|l: OrderLine| spec_mul(l.unit_price, l.ordered_qty))
}

/// Every multiplication of pricing the order, and every addition of its total, is exact.
pub open spec fn order_pricing_exact(lines: Seq<OrderLine>) -> bool {
    &&& forall|i: int| 0 <= i < lines.len() ==> mul_exact(#[trigger] lines[i].unit_price, lines[i].ordered_qty)
    &&& forall|i: int| 0 <= i < lines.len() ==> mul_exact(#[trigger] lines[i].unit_price, lines[i].discount_rate)
    &&& sum_exact(line_amounts(lines))
}

/// An order after pricing: one priced line per submitted line, and the total.
#[derive(Clone, Debug, PartialEq, Eq)]
pub struct PricedOrder {
    pub lines: Vec<PricedLine>,
    /// The sum of the lines' `ordered_amount`.
    pub ordered_amount: Amount,
}

/// Prices the lines of a new order and adds up its amount.
///
/// An order without lines is refused with `BadRequest("订单不能为空")`.
pub fn price_order(lines: &Vec<OrderLine>) -> (r: Result<PricedOrder, AppError>)
    requires
        order_pricing_exact(lines@),
    ensures
        lines@.len() == 0 ==> (r matches Err(AppError::BadRequest(m)) && m@ == "订单不能为空"@),
        lines@.len() > 0 ==> (r matches Ok(p) && p.lines@.len() == lines@.len()
            && (forall|i: int| 0 <= i < lines@.len() ==> #[trigger] p.lines@[i] == spec_priced_line(lines@[i]))
            && p.ordered_amount == spec_sum(line_amounts(lines@))),
{
    if lines.len() == 0 {
        return Err(AppError::bad_request("订单不能为空"));
    }
    let mut priced: Vec<PricedLine> = Vec::new();
    let mut amounts: Vec<Amount> = Vec::new();
    let mut i: usize = 0;
    while i < lines.len()
        invariant
            i <= lines.len(),
            order_pricing_exact(lines@),
            priced@.len() == i,
            amounts@.len() == i,
            forall|j: int| 0 <= j < i ==> #[trigger] priced@[j] == spec_priced_line(lines@[j]),
            amounts@ == line_amounts(lines@).take(i as int),
        decreases lines.len() - i,
    {
        let l = lines[i];
        assert(mul_exact(lines@[i as int].unit_price, lines@[i as int].ordered_qty));
        assert(mul_exact(lines@[i as int].unit_price, lines@[i as int].discount_rate));
        let ordered_amount = l.unit_price.mul(l.ordered_qty);
        let discounted_unit_price = l.unit_price.mul(l.discount_rate);
        priced.push(PricedLine { ordered_amount, discounted_unit_price });
        amounts.push(ordered_amount);
        assert(amounts@ =~= line_amounts(lines@).take(i as int + 1));
        i = i + 1;
    }
    assert(amounts@ =~= line_amounts(lines@));
    let total = sum_amounts(&amounts);
    Ok(PricedOrder { lines: priced, ordered_amount: total })
}

/// The discount rate of a customer's category, or `1.00` (no discount) when
/// none is in force.
pub fn discount_rate_or_default(found: Option<Amount>) -> (rate: Amount)
    ensures
        rate == (match found {
            Some(r) => r,
            None => Amount { mantissa: 100, scale: 2 },
        }),
{
    match found {
        Some(r) => r,
        None => Amount::new(100, 2),
    }
}

/// One line of an order that the customer accepted at inspection.
#[derive(Clone, Copy, Debug, PartialEq, Eq)]
pub struct AcceptedDetail {
    pub order_detail_id: i32,
    /// The total accepted quantity, when the customer recorded one.
    pub inspected_qty: Option<Amount>,
    pub discounted_unit_price: Amount,
}

/// The settled amounts of one accepted order line.
#[derive(Clone, Copy, Debug, PartialEq, Eq)]
pub struct DetailSettlement {
    pub order_detail_id: i32,
    /// `discounted_unit_price × accepted_qty`.
    pub net_amount: Amount,
    pub accepted_qty: Amount,
}

/// The accepted quantity of a detail (zero when none was recorded).
pub open spec fn accepted_qty_of(d: AcceptedDetail) -> Amount {
    match d.inspected_qty {
        Some(q) => q,
        None => zero_amount(),
    }
}

pub open spec fn spec_settlement(d: AcceptedDetail) -> DetailSettlement {
    DetailSettlement {
        order_detail_id: d.order_detail_id,
        net_amount: spec_mul(d.discounted_unit_price, accepted_qty_of(d)),
        accepted_qty: accepted_qty_of(d),
    }
}

pub open spec fn net_amounts(details: Seq<AcceptedDetail>) -> Seq<Amount> {
    details.map_values(|d: AcceptedDetail| spec_settlement(d).net_amount)
}

pub open spec fn settlement_exact(details: Seq<AcceptedDetail>) -> bool {
    &&& forall|i: int| 0 <= i < details.len() ==> mul_exact(#[trigger] details[i].discounted_unit_price, accepted_qty_of(details[i]))
    &&& sum_exact(net_amounts(details))
}

/// The settlement of an order that the customer accepted: each line's net
/// amount and the order's net amount.
#[derive(Clone, Debug, PartialEq, Eq)]
pub struct CustomerSettlement {
    pub details: Vec<DetailSettlement>,
    /// The sum of the lines' net amounts.
    pub order_net_amount: Amount,
}

/// Settles an order that the customer accepted: every accepted line is charged
/// its discounted unit price times its accepted quantity.
///
/// Without accepted lines the settlement is refused with
/// `Internal("No order details found for inspection")`.
pub fn settle_accepted_details(details: &Vec<AcceptedDetail>) -> (r: Result<CustomerSettlement, AppError>)
    requires
        settlement_exact(details@),
    ensures
        details@.len() == 0 ==> (r matches Err(AppError::Internal(m)) && m@ == "No order details found for inspection"@),
        details@.len() > 0 ==> (r matches Ok(s) && s.details@.len() == details@.len()
            && (forall|i: int| 0 <= i < details@.len() ==> #[trigger] s.details@[i] == spec_settlement(details@[i]))
            && s.order_net_amount == spec_sum(net_amounts(details@))),
{
    if details.len() == 0 {
        return Err(AppError::internal("No order details found for inspection"));
    }
    let mut settled: Vec<DetailSettlement> = Vec::new();
    let mut nets: Vec<Amount> = Vec::new();
    let mut i: usize = 0;
    while i < details.len()
        invariant
            i <= details.len(),
            settlement_exact(details@),
            settled@.len() == i,
            nets@.len() == i,
            forall|j: int| 0 <= j < i ==> #[trigger] settled@[j] == spec_settlement(details@[j]),
            nets@ == net_amounts(details@).take(i as int),
        decreases details.len() - i,
    {
        let d = details[i];
        let qty = match d.inspected_qty {
            Some(q) => q,
            None => Amount::zero(),
        };
        assert(mul_exact(details@[i as int].discounted_unit_price, accepted_qty_of(details@[i as int])));
        let net = d.discounted_unit_price.mul(qty);
        settled.push(DetailSettlement { order_detail_id: d.order_detail_id, net_amount: net, accepted_qty: qty });
        nets.push(net);
        assert(nets@ =~= net_amounts(details@).take(i as int + 1));
        i = i + 1;
    }
    assert(nets@ =~= net_amounts(details@));
    let total = sum_amounts(&nets);
    Ok(CustomerSettlement { details: settled, order_net_amount: total })
}

/// The amount refunded when an inspected line is returned:
/// the quantity to inspect times the line's discounted unit price.
pub fn refund_amount(actual_quantity: Amount, actual_price: Amount) -> (r: Amount)
    requires
        mul_exact(actual_quantity, actual_price),
    ensures
        r == spec_mul(actual_quantity, actual_price),
        value28(r) * pow10(28) == value28(actual_quantity) * value28(actual_price),
{
    proof {
        lemma_mul_value(actual_quantity, actual_price);
    }
    actual_quantity.mul(actual_price)
}

/// What is exchanged when an inspected line is exchanged.
#[derive(Clone, Copy, Debug, PartialEq, Eq)]
pub struct ExchangePlan {
    /// `ordered_qty - received_qty`.
    pub quantity: Amount,
    /// `price × quantity`.
    pub total_amount: Amount,
}

/// The exchange of an inspected line: the ordered quantity less the quantity
/// received. An exchange is made only for a quantity greater than zero:
/// nothing is exchanged (`None`) when at least the ordered quantity was received.
pub fn exchange_plan(ordered_qty: Amount, received_qty: Amount, price: Amount) -> (r: Option<ExchangePlan>)
    requires
        sub_exact(ordered_qty, received_qty),
        spec_sub(ordered_qty, received_qty).mantissa > 0 ==> mul_exact(price, spec_sub(ordered_qty, received_qty)),
    ensures
        r is Some <==> value28(ordered_qty) > value28(received_qty),
        r matches Some(p) ==> p.quantity == spec_sub(ordered_qty, received_qty)
            && p.total_amount == spec_mul(price, p.quantity),
        r matches Some(p) ==> value28(p.quantity) == value28(ordered_qty) - value28(received_qty)
            && value28(p.total_amount) * pow10(28) == value28(price) * value28(p.quantity),
{
    let quantity = ordered_qty.sub(received_qty);
    proof { lemma_sub_value(ordered_qty, received_qty); }
    if quantity.is_positive() {
        proof { lemma_mul_value(price, quantity); }
        Some(ExchangePlan { quantity, total_amount: price.mul(quantity) })
    } else {
        None
    }
}

/// The sum over the lines of (unit price × quantity), on the numbers the
/// amounts denote (each factor times 10^28).
pub open spec fn gross_value(lines: Seq<OrderLine>) -> int
    decreases lines.len(),
{
    if lines.len() == 0 {
        0
    } else {
        gross_value(lines.drop_last()) + value28(lines.last().unit_price) * value28(lines.last().ordered_qty)
    }
}

/// Law: the amount of a priced order is the sum, over its lines, of unit
/// price times ordered quantity (as numbers, not only as decimal layouts).
pub proof fn law_order_amount_is_sum_of_line_values(lines: Seq<OrderLine>)
    requires
        order_pricing_exact(lines),
    ensures
        value28(spec_sum(line_amounts(lines))) * pow10(28) == gross_value(lines),
{
    lemma_sum_value(line_amounts(lines));
    lemma_line_values(lines);
}

proof fn lemma_line_values(lines: Seq<OrderLine>)
    requires
        forall|i: int| 0 <= i < lines.len() ==> mul_exact(#[trigger] lines[i].unit_price, lines[i].ordered_qty),
    ensures
        value_sum(line_amounts(lines)) * pow10(28) == gross_value(lines),
    decreases lines.len(),
{
    if lines.len() > 0 {
        let init = lines.drop_last();
        assert forall|i: int| 0 <= i < init.len() implies mul_exact(#[trigger] init[i].unit_price, init[i].ordered_qty) by {
            assert(init[i] == lines[i]);
        }
        lemma_line_values(init);
        assert(line_amounts(lines).drop_last() =~= line_amounts(init));
        let l = lines.last();
        assert(mul_exact(lines[lines.len() - 1].unit_price, lines[lines.len() - 1].ordered_qty));
        lemma_mul_value(l.unit_price, l.ordered_qty);
        let a = value_sum(line_amounts(init));
        let b = value28(spec_mul(l.unit_price, l.ordered_qty));
        assert((a + b) * pow10(28) == a * pow10(28) + b * pow10(28)) by (nonlinear_arith);
    }
}

/// The sum over accepted lines of (discounted unit price × accepted quantity),
/// on the numbers the amounts denote.
pub open spec fn accepted_value(details: Seq<AcceptedDetail>) -> int
    decreases details.len(),
{
    if details.len() == 0 {
        0
    } else {
        accepted_value(details.drop_last())
            + value28(details.last().discounted_unit_price) * value28(accepted_qty_of(details.last()))
    }
}

/// Law: the net amount of a settled order is the sum, over its accepted lines,
/// of discounted unit price times accepted quantity.
pub proof fn law_settlement_is_sum_of_accepted_values(details: Seq<AcceptedDetail>)
    requires
        settlement_exact(details),
    ensures
        value28(spec_sum(net_amounts(details))) * pow10(28) == accepted_value(details),
{
    lemma_sum_value(net_amounts(details));
    lemma_accepted_values(details);
}

proof fn lemma_accepted_values(details: Seq<AcceptedDetail>)
    requires
        forall|i: int| 0 <= i < details.len() ==> mul_exact(#[trigger] details[i].discounted_unit_price, accepted_qty_of(details[i])),
    ensures
        value_sum(net_amounts(details)) * pow10(28) == accepted_value(details),
    decreases details.len(),
{
    if details.len() > 0 {
        let init = details.drop_last();
        assert forall|i: int| 0 <= i < init.len() implies mul_exact(#[trigger] init[i].discounted_unit_price, accepted_qty_of(init[i])) by {
            assert(init[i] == details[i]);
        }
        lemma_accepted_values(init);
        assert(net_amounts(details).drop_last() =~= net_amounts(init));
        let d = details.last();
        assert(mul_exact(details[details.len() - 1].discounted_unit_price, accepted_qty_of(details[details.len() - 1])));
        lemma_mul_value(d.discounted_unit_price, accepted_qty_of(d));
        let a = value_sum(net_amounts(init));
        let b = value28(spec_mul(d.discounted_unit_price, accepted_qty_of(d)));
        assert((a + b) * pow10(28) == a * pow10(28) + b * pow10(28)) by (nonlinear_arith);
    }
}

} // verus!
