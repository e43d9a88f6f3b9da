use vstd::prelude::*;
use crate::calendar::{CalDate, date_before, day_key, is_before, valid_date};
use crate::inspection::{InspectionOutcome, has_result, spec_outcome, spec_outcome_text};
use crate::error::AppError;
use crate::tenant::{TenantType, spec_parse_tenant};
use crate::text::{decimal, decimal_text, join2, join3, text_eq};

verus! {

/// The states an order goes through, as stored in `orders.order_status`.
#[derive(Clone, Copy, Debug, PartialEq, Eq, Structural)]
pub enum OrderStatus {
    Pending,
    Assigned,
    SupplierPreparing,
    SupplierDelivering,
    MarketDelivering,
    ExchangeRequested,
    ExchangeInProgress,
    ExchangeDelivering,
    ExchangeNewDelivering,
    Accepted,
    AfterSale,
    Completed,
}

/// The stored text of a status.
pub open spec fn spec_status_text(s: OrderStatus) -> Seq<char> {
    match s {
        OrderStatus::Pending => "PENDING"@,
        OrderStatus::Assigned => "ASSIGNED"@,
        OrderStatus::SupplierPreparing => "SUPPLIER_PREPARING"@,
        OrderStatus::SupplierDelivering => "SUPPLIER_DELIVERING"@,
        OrderStatus::MarketDelivering => "MARKET_DELIVERING"@,
        OrderStatus::ExchangeRequested => "EXCHANGE_REQUESTED"@,
        OrderStatus::ExchangeInProgress => "EXCHANGE_IN_PROGRESS"@,
        OrderStatus::ExchangeDelivering => "EXCHANGE_DELIVERING"@,
        OrderStatus::ExchangeNewDelivering => "EXCHANGE_NEW_DELIVERING"@,
        OrderStatus::Accepted => "ACCEPTED"@,
        OrderStatus::AfterSale => "AFTER_SALE"@,
        OrderStatus::Completed => "COMPLETED"@,
    }
}

/// The status that a stored text stands for, if any.
pub open spec fn spec_parse_status(t: Seq<char>) -> Option<OrderStatus> {
    if t == "PENDING"@ {
        Some(OrderStatus::Pending)
    } else if t == "ASSIGNED"@ {
        Some(OrderStatus::Assigned)
    } else if t == "SUPPLIER_PREPARING"@ {
        Some(OrderStatus::SupplierPreparing)
    } else if t == "SUPPLIER_DELIVERING"@ {
        Some(OrderStatus::SupplierDelivering)
    } else if t == "MARKET_DELIVERING"@ {
        Some(OrderStatus::MarketDelivering)
    } else if t == "EXCHANGE_REQUESTED"@ {
        Some(OrderStatus::ExchangeRequested)
    } else if t == "EXCHANGE_IN_PROGRESS"@ {
        Some(OrderStatus::ExchangeInProgress)
    } else if t == "EXCHANGE_DELIVERING"@ {
        Some(OrderStatus::ExchangeDelivering)
    } else if t == "EXCHANGE_NEW_DELIVERING"@ {
        Some(OrderStatus::ExchangeNewDelivering)
    } else if t == "ACCEPTED"@ {
        Some(OrderStatus::Accepted)
    } else if t == "AFTER_SALE"@ {
        Some(OrderStatus::AfterSale)
    } else if t == "COMPLETED"@ {
        Some(OrderStatus::Completed)
    } else {
        None
    }
}

impl OrderStatus {
    pub fn to_str(&self) -> (s: &'static str)
        ensures
            s@ == spec_status_text(*self),
    {
        match self {
            OrderStatus::Pending => "PENDING",
            OrderStatus::Assigned => "ASSIGNED",
            OrderStatus::SupplierPreparing => "SUPPLIER_PREPARING",
            OrderStatus::SupplierDelivering => "SUPPLIER_DELIVERING",
            OrderStatus::MarketDelivering => "MARKET_DELIVERING",
            OrderStatus::ExchangeRequested => "EXCHANGE_REQUESTED",
            OrderStatus::ExchangeInProgress => "EXCHANGE_IN_PROGRESS",
            OrderStatus::ExchangeDelivering => "EXCHANGE_DELIVERING",
            OrderStatus::ExchangeNewDelivering => "EXCHANGE_NEW_DELIVERING",
            OrderStatus::Accepted => "ACCEPTED",
            OrderStatus::AfterSale => "AFTER_SALE",
            OrderStatus::Completed => "COMPLETED",
        }
    }

    /// The status stored as `text`, if it is one of the known names.
    pub fn parse(text: &str) -> (r: Option<OrderStatus>)
        ensures
            r == spec_parse_status(text@),
    {
        if text_eq(text, "PENDING") {
            Some(OrderStatus::Pending)
        } else if text_eq(text, "ASSIGNED") {
            Some(OrderStatus::Assigned)
        } else if text_eq(text, "SUPPLIER_PREPARING") {
            Some(OrderStatus::SupplierPreparing)
        } else if text_eq(text, "SUPPLIER_DELIVERING") {
            Some(OrderStatus::SupplierDelivering)
        } else if text_eq(text, "MARKET_DELIVERING") {
            Some(OrderStatus::MarketDelivering)
        } else if text_eq(text, "EXCHANGE_REQUESTED") {
            Some(OrderStatus::ExchangeRequested)
        } else if text_eq(text, "EXCHANGE_IN_PROGRESS") {
            Some(OrderStatus::ExchangeInProgress)
        } else if text_eq(text, "EXCHANGE_DELIVERING") {
            Some(OrderStatus::ExchangeDelivering)
        } else if text_eq(text, "EXCHANGE_NEW_DELIVERING") {
            Some(OrderStatus::ExchangeNewDelivering)
        } else if text_eq(text, "ACCEPTED") {
            Some(OrderStatus::Accepted)
        } else if text_eq(text, "AFTER_SALE") {
            Some(OrderStatus::AfterSale)
        } else if text_eq(text, "COMPLETED") {
            Some(OrderStatus::Completed)
        } else {
            None
        }
    }
}

/// Law: the stored text of a status reads back as that same status.
pub proof fn law_status_text_round_trip(s: OrderStatus)
    ensures
        spec_parse_status(spec_status_text(s)) == Some(s),
{
    reveal_strlit("PENDING");
    reveal_strlit("ASSIGNED");
    reveal_strlit("SUPPLIER_PREPARING");
    reveal_strlit("SUPPLIER_DELIVERING");
    reveal_strlit("MARKET_DELIVERING");
    reveal_strlit("EXCHANGE_REQUESTED");
    reveal_strlit("EXCHANGE_IN_PROGRESS");
    reveal_strlit("EXCHANGE_DELIVERING");
    reveal_strlit("EXCHANGE_NEW_DELIVERING");
    reveal_strlit("ACCEPTED");
    reveal_strlit("AFTER_SALE");
    reveal_strlit("COMPLETED");
    match s {
        OrderStatus::Pending => {
        },
        OrderStatus::Assigned => {
            assert("ASSIGNED"@.len() != "PENDING"@.len());
        },
        OrderStatus::SupplierPreparing => {
            assert("SUPPLIER_PREPARING"@.len() != "PENDING"@.len());
            assert("SUPPLIER_PREPARING"@.len() != "ASSIGNED"@.len());
        },
        OrderStatus::SupplierDelivering => {
            assert("SUPPLIER_DELIVERING"@.len() != "PENDING"@.len());
            assert("SUPPLIER_DELIVERING"@.len() != "ASSIGNED"@.len());
            assert("SUPPLIER_DELIVERING"@.len() != "SUPPLIER_PREPARING"@.len());
        },
        OrderStatus::MarketDelivering => {
            assert("MARKET_DELIVERING"@.len() != "PENDING"@.len());
            assert("MARKET_DELIVERING"@.len() != "ASSIGNED"@.len());
            assert("MARKET_DELIVERING"@.len() != "SUPPLIER_PREPARING"@.len());
            assert("MARKET_DELIVERING"@.len() != "SUPPLIER_DELIVERING"@.len());
        },
        OrderStatus::ExchangeRequested => {
            assert("EXCHANGE_REQUESTED"@.len() != "PENDING"@.len());
            assert("EXCHANGE_REQUESTED"@.len() != "ASSIGNED"@.len());
            assert("EXCHANGE_REQUESTED"@[0] != "SUPPLIER_PREPARING"@[0]);
            assert("EXCHANGE_REQUESTED"@.len() != "SUPPLIER_DELIVERING"@.len());
            assert("EXCHANGE_REQUESTED"@.len() != "MARKET_DELIVERING"@.len());
        },
        OrderStatus::ExchangeInProgress => {
            assert("EXCHANGE_IN_PROGRESS"@.len() != "PENDING"@.len());
            assert("EXCHANGE_IN_PROGRESS"@.len() != "ASSIGNED"@.len());
            assert("EXCHANGE_IN_PROGRESS"@.len() != "SUPPLIER_PREPARING"@.len());
            assert("EXCHANGE_IN_PROGRESS"@.len() != "SUPPLIER_DELIVERING"@.len());
            assert("EXCHANGE_IN_PROGRESS"@.len() != "MARKET_DELIVERING"@.len());
            assert("EXCHANGE_IN_PROGRESS"@.len() != "EXCHANGE_REQUESTED"@.len());
        },
        OrderStatus::ExchangeDelivering => {
            assert("EXCHANGE_DELIVERING"@.len() != "PENDING"@.len());
            assert("EXCHANGE_DELIVERING"@.len() != "ASSIGNED"@.len());
            assert("EXCHANGE_DELIVERING"@.len() != "SUPPLIER_PREPARING"@.len());
            assert("EXCHANGE_DELIVERING"@[0] != "SUPPLIER_DELIVERING"@[0]);
            assert("EXCHANGE_DELIVERING"@.len() != "MARKET_DELIVERING"@.len());
            assert("EXCHANGE_DELIVERING"@.len() != "EXCHANGE_REQUESTED"@.len());
            assert("EXCHANGE_DELIVERING"@.len() != "EXCHANGE_IN_PROGRESS"@.len());
        },
        OrderStatus::ExchangeNewDelivering => {
            assert("EXCHANGE_NEW_DELIVERING"@.len() != "PENDING"@.len());
            assert("EXCHANGE_NEW_DELIVERING"@.len() != "ASSIGNED"@.len());
            assert("EXCHANGE_NEW_DELIVERING"@.len() != "SUPPLIER_PREPARING"@.len());
            assert("EXCHANGE_NEW_DELIVERING"@.len() != "SUPPLIER_DELIVERING"@.len());
            assert("EXCHANGE_NEW_DELIVERING"@.len() != "MARKET_DELIVERING"@.len());
            assert("EXCHANGE_NEW_DELIVERING"@.len() != "EXCHANGE_REQUESTED"@.len());
            assert("EXCHANGE_NEW_DELIVERING"@.len() != "EXCHANGE_IN_PROGRESS"@.len());
            assert("EXCHANGE_NEW_DELIVERING"@.len() != "EXCHANGE_DELIVERING"@.len());
        },
        OrderStatus::Accepted => {
            assert("ACCEPTED"@.len() != "PENDING"@.len());
            assert("ACCEPTED"@[1] != "ASSIGNED"@[1]);
            assert("ACCEPTED"@.len() != "SUPPLIER_PREPARING"@.len());
            assert("ACCEPTED"@.len() != "SUPPLIER_DELIVERING"@.len());
            assert("ACCEPTED"@.len() != "MARKET_DELIVERING"@.len());
            assert("ACCEPTED"@.len() != "EXCHANGE_REQUESTED"@.len());
            assert("ACCEPTED"@.len() != "EXCHANGE_IN_PROGRESS"@.len());
            assert("ACCEPTED"@.len() != "EXCHANGE_DELIVERING"@.len());
            assert("ACCEPTED"@.len() != "EXCHANGE_NEW_DELIVERING"@.len());
        },
        OrderStatus::AfterSale => {
            assert("AFTER_SALE"@.len() != "PENDING"@.len());
            assert("AFTER_SALE"@.len() != "ASSIGNED"@.len());
            assert("AFTER_SALE"@.len() != "SUPPLIER_PREPARING"@.len());
            assert("AFTER_SALE"@.len() != "SUPPLIER_DELIVERING"@.len());
            assert("AFTER_SALE"@.len() != "MARKET_DELIVERING"@.len());
            assert("AFTER_SALE"@.len() != "EXCHANGE_REQUESTED"@.len());
            assert("AFTER_SALE"@.len() != "EXCHANGE_IN_PROGRESS"@.len());
            assert("AFTER_SALE"@.len() != "EXCHANGE_DELIVERING"@.len());
            assert("AFTER_SALE"@.len() != "EXCHANGE_NEW_DELIVERING"@.len());
            assert("AFTER_SALE"@.len() != "ACCEPTED"@.len());
        },
        OrderStatus::Completed => {
            assert("COMPLETED"@.len() != "PENDING"@.len());
            assert("COMPLETED"@.len() != "ASSIGNED"@.len());
            assert("COMPLETED"@.len() != "SUPPLIER_PREPARING"@.len());
            assert("COMPLETED"@.len() != "SUPPLIER_DELIVERING"@.len());
            assert("COMPLETED"@.len() != "MARKET_DELIVERING"@.len());
            assert("COMPLETED"@.len() != "EXCHANGE_REQUESTED"@.len());
            assert("COMPLETED"@.len() != "EXCHANGE_IN_PROGRESS"@.len());
            assert("COMPLETED"@.len() != "EXCHANGE_DELIVERING"@.len());
            assert("COMPLETED"@.len() != "EXCHANGE_NEW_DELIVERING"@.len());
            assert("COMPLETED"@.len() != "ACCEPTED"@.len());
            assert("COMPLETED"@.len() != "AFTER_SALE"@.len());
        },
    }
}

/// The operations that move an order from one status to another.
#[derive(Clone, Copy, Debug, PartialEq, Eq, Structural)]
pub enum OrderAction {
    Create,
    AssignSupplier,
    StartPreparing,
    DeliverToMarket,
    MarketInspect,
    MarketAccept,
    MarketExchange,
    MarketReturn,
    DeliverToCustomer,
    CustomerInspect,
    CustomerExchange,
    CustomerReturn,
    Complete,
    Cancel,
}

/// `"订单 {order_code}{rest}"`.
pub open spec fn order_message(order_code: Seq<char>, rest: Seq<char>) -> Seq<char> {
    "订单 "@ + order_code + rest
}

/// How a provider starts preparing an order.
#[derive(Clone, Debug, PartialEq, Eq)]
pub enum PreparingPlan {
    /// The first delivery of an assigned order, by the delivery staff member
    /// with this ID card number.
    FirstDelivery { id_card: String },
    /// A new delivery round for the lines that were exchanged.
    ExchangeRedelivery,
}

/// What `preparing_plan` answers for the status found (if any), the order
/// code and the delivery staff member named (if any).
pub open spec fn preparing_plan_outcome(
    found: Option<OrderStatus>,
    order_code: Seq<char>,
    id_card: Option<Seq<char>>,
    r: Result<PreparingPlan, AppError>,
) -> bool {
    match found {
        None => r matches Err(AppError::NotFound(m)) && m@ == order_message(order_code, " 没有找到，不能备货"@),
        Some(current) => {
            &&& current != OrderStatus::Assigned && current != OrderStatus::ExchangeRequested ==> (r matches Err(
                AppError::Validation(m),
            ) && m@ == order_message(order_code, " 状态错误，不能进行备货"@))
            &&& current == OrderStatus::Assigned ==> match id_card {
                Some(c) => r matches Ok(PreparingPlan::FirstDelivery { id_card }) && id_card@ == c,
                None => r matches Err(AppError::Validation(m)) && m@ == "配送员 ID 不能为空"@,
            }
            &&& current == OrderStatus::ExchangeRequested ==> r == Ok::<PreparingPlan, AppError>(
                PreparingPlan::ExchangeRedelivery,
            )
        },
    }
}

/// The action and plan for a provider starting to prepare an order, given the
/// status of the order found among the provider's orders (`None` when it has
/// no such order).
///
/// An order that is not found is refused with
/// `NotFound("订单 {code} 没有找到，不能备货")`. Only an `Assigned` order (first
/// delivery, which names its delivery staff member) or an `ExchangeRequested`
/// one (a new round) can be prepared; any other status is refused with
/// `Validation("订单 {code} 状态错误，不能进行备货")`, and a first delivery
/// without staff with `Validation("配送员 ID 不能为空")`.
pub fn preparing_plan(found: Option<OrderStatus>, order_code: &str, id_card: Option<&str>) -> (r: Result<
    PreparingPlan,
    AppError,
>)
    ensures
        preparing_plan_outcome(
            found,
            order_code@,
            match id_card {
                Some(c) => Some(c@),
                None => None,
            },
            r,
        ),
{
    let current = match found {
        Some(s) => s,
        None => return Err(AppError::NotFound(join3("订单 ", order_code, " 没有找到，不能备货"))),
    };
    match current {
        OrderStatus::Assigned => match id_card {
            Some(c) => Ok(PreparingPlan::FirstDelivery { id_card: String::from_str(c) }),
            None => Err(AppError::validation("配送员 ID 不能为空")),
        },
        OrderStatus::ExchangeRequested => Ok(PreparingPlan::ExchangeRedelivery),
        _ => Err(AppError::Validation(join3("订单 ", order_code, " 状态错误，不能进行备货"))),
    }
}

/// The action of a provider delivering an order to the market: allowed while
/// the order is being prepared (`SupplierPreparing`) or exchanged
/// (`ExchangeInProgress`), refused otherwise with
/// `Validation("订单 {code} 状态错误，不能配送到市场")`.
pub fn deliver_to_market_action(current: OrderStatus, order_code: &str) -> (r: Result<OrderAction, AppError>)
    ensures
        (current == OrderStatus::SupplierPreparing || current == OrderStatus::ExchangeInProgress) ==> r
            == Ok::<OrderAction, AppError>(OrderAction::DeliverToMarket),
        !(current == OrderStatus::SupplierPreparing || current == OrderStatus::ExchangeInProgress) ==> (r matches Err(
            AppError::Validation(m),
        ) && m@ == order_message(order_code@, " 状态错误，不能配送到市场"@)),
{
    match current {
        OrderStatus::SupplierPreparing => Ok(OrderAction::DeliverToMarket),
        OrderStatus::ExchangeInProgress => Ok(OrderAction::DeliverToMarket),
        _ => Err(AppError::Validation(join3("订单 ", order_code, " 状态错误，不能配送到市场"))),
    }
}

/// The inspection that a tenant may start on an order in the stored status
/// `status_text`: the market inspects what the provider delivers (first or
/// exchanged delivery), anyone else inspects what the market delivers. `None`
/// when the status does not allow it.
pub fn inspection_action(tenant: TenantType, status_text: &str) -> (r: Option<OrderAction>)
    ensures
        tenant == TenantType::Market ==> r == (if status_text@ == "SUPPLIER_DELIVERING"@ || status_text@
            == "EXCHANGE_DELIVERING"@ {
            Some(OrderAction::MarketInspect)
        } else {
            None
        }),
        tenant != TenantType::Market ==> r == (if status_text@ == "MARKET_DELIVERING"@ || status_text@
            == "EXCHANGE_NEW_DELIVERING"@ {
            Some(OrderAction::CustomerInspect)
        } else {
            None
        }),
{
    match tenant {
        TenantType::Market => {
            if text_eq(status_text, "SUPPLIER_DELIVERING") || text_eq(status_text, "EXCHANGE_DELIVERING") {
                Some(OrderAction::MarketInspect)
            } else {
                None
            }
        },
        _ => {
            if text_eq(status_text, "MARKET_DELIVERING") || text_eq(status_text, "EXCHANGE_NEW_DELIVERING") {
                Some(OrderAction::CustomerInspect)
            } else {
                None
            }
        },
    }
}

/// The tenant type of the caller and the action it requested, or the refusal.
pub open spec fn tenant_action_result(
    tenant_text: Seq<char>,
    market: Option<OrderAction>,
    customer: Option<OrderAction>,
    provider: Option<OrderAction>,
    refusal: Seq<char>,
    r: Result<(TenantType, OrderAction), AppError>,
) -> bool {
    match spec_parse_tenant(tenant_text) {
        None => r matches Err(AppError::Validation(m)) && m@ == "无效的租户类型"@,
        Some(t) => {
            let allowed = match t {
                TenantType::Market => market,
                TenantType::Customer => customer,
                TenantType::Provider => provider,
            };
            match allowed {
                Some(a) => r == Ok::<(TenantType, OrderAction), AppError>((t, a)),
                None => r matches Err(AppError::Forbidden(m)) && m@ == tenant_text + refusal,
            }
        },
    }
}

fn tenant_action(
    tenant_text: &str,
    market: Option<OrderAction>,
    customer: Option<OrderAction>,
    provider: Option<OrderAction>,
    refusal: &str,
) -> (r: Result<(TenantType, OrderAction), AppError>)
    ensures
        tenant_action_result(tenant_text@, market, customer, provider, refusal@, r),
{
    let t = TenantType::from_claim(tenant_text)?;
    let allowed = match t {
        TenantType::Market => market,
        TenantType::Customer => customer,
        TenantType::Provider => provider,
    };
    match allowed {
        Some(a) => Ok((t, a)),
        None => Err(AppError::Forbidden(join2(tenant_text, refusal))),
    }
}

/// Who may cancel an order: the market and the customer.
pub fn cancel_action(tenant_text: &str) -> (r: Result<(TenantType, OrderAction), AppError>)
    ensures
        tenant_action_result(tenant_text@, Some(OrderAction::Cancel), Some(OrderAction::Cancel), None,
            " 不能执行取消操作"@, r),
{
    tenant_action(tenant_text, Some(OrderAction::Cancel), Some(OrderAction::Cancel), None, " 不能执行取消操作")
}

/// Who may return an order: the market (`MarketReturn`) and the customer
/// (`CustomerReturn`).
pub fn return_action(tenant_text: &str) -> (r: Result<(TenantType, OrderAction), AppError>)
    ensures
        tenant_action_result(tenant_text@, Some(OrderAction::MarketReturn), Some(OrderAction::CustomerReturn),
            None, " 不能执行退货操作"@, r),
{
    tenant_action(
        tenant_text,
        Some(OrderAction::MarketReturn),
        Some(OrderAction::CustomerReturn),
        None,
        " 不能执行退货操作",
    )
}

/// Who may ask for an exchange: the market (`MarketExchange`) and the customer
/// (`CustomerExchange`).
pub fn after_sales_action(tenant_text: &str) -> (r: Result<(TenantType, OrderAction), AppError>)
    ensures
        tenant_action_result(tenant_text@, Some(OrderAction::MarketExchange), Some(OrderAction::CustomerExchange),
            None, " 不能执行换货操作"@, r),
{
    tenant_action(
        tenant_text,
        Some(OrderAction::MarketExchange),
        Some(OrderAction::CustomerExchange),
        None,
        " 不能执行换货操作",
    )
}

/// Who may deliver an order to the customer: the market only.
pub fn deliver_to_customer_action(tenant_text: &str) -> (r: Result<(TenantType, OrderAction), AppError>)
    ensures
        tenant_action_result(tenant_text@, Some(OrderAction::DeliverToCustomer), None, None,
            " 不能执行配送到客户操作"@, r),
{
    tenant_action(tenant_text, Some(OrderAction::DeliverToCustomer), None, None, " 不能执行配送到客户操作")
}

/// Who may deliver exchanged goods to the market: the provider only.
pub fn exchange_delivery_action(tenant_text: &str) -> (r: Result<(TenantType, OrderAction), AppError>)
    ensures
        tenant_action_result(tenant_text@, None, None, Some(OrderAction::DeliverToMarket), " 不能执行换货操作"@, r),
{
    tenant_action(tenant_text, None, None, Some(OrderAction::DeliverToMarket), " 不能执行换货操作")
}

/// The action that follows an inspection with the recorded result `result`:
/// an exchange asks for one, a pass (full or partial) is accepted by the market
/// and completes the order for the customer, anything else cancels it.
pub open spec fn spec_action_after(result: Seq<char>, tenant: TenantType) -> OrderAction {
    if result == "EXCHANGE"@ {
        if tenant == TenantType::Market {
            OrderAction::MarketExchange
        } else {
            OrderAction::CustomerExchange
        }
    } else if result == "PASS"@ || result == "PARTIAL"@ {
        if tenant == TenantType::Market {
            OrderAction::MarketAccept
        } else {
            OrderAction::Complete
        }
    } else {
        OrderAction::Cancel
    }
}

/// What follows the end of an inspection, by its outcome.
///
/// An exchange asks the provider (market) or the market (customer) for new
/// goods; a pass (full or partial) is accepted by the market, or completes the
/// order for the customer (who is then charged for what was accepted);
/// anything else cancels the order.
pub fn action_after_inspection(result_text: &str, tenant: TenantType) -> (a: OrderAction)
    ensures
        a == spec_action_after(result_text@, tenant),
{
    if text_eq(result_text, "EXCHANGE") {
        if tenant == TenantType::Market {
            OrderAction::MarketExchange
        } else {
            OrderAction::CustomerExchange
        }
    } else if text_eq(result_text, "PASS") || text_eq(result_text, "PARTIAL") {
        if tenant == TenantType::Market {
            OrderAction::MarketAccept
        } else {
            OrderAction::Complete
        }
    } else {
        OrderAction::Cancel
    }
}

/// An order can only be assigned to a provider before its delivery date has
/// passed; otherwise `Validation("不能指派已过期订单 {code}")`.
pub fn check_assignable(delivery_date: CalDate, today: CalDate, order_code: &str) -> (r: Result<(), AppError>)
    ensures
        date_before(delivery_date, today) ==> (r matches Err(AppError::Validation(m)) && m@ == "不能指派已过期订单 "@
            + order_code@),
        !date_before(delivery_date, today) ==> r is Ok,
{
    if is_before(delivery_date, today) {
        Err(AppError::Validation(join2("不能指派已过期订单 ", order_code)))
    } else {
        Ok(())
    }
}

/// An assignment that changed no order row found the order already updated or
/// cancelled: `Validation("订单 {code} 状态已更新或被取消")`.
pub fn check_assignment_applied(rows_affected: u64, order_code: &str) -> (r: Result<(), AppError>)
    ensures
        rows_affected == 0 ==> (r matches Err(AppError::Validation(m)) && m@ == order_message(order_code@,
            " 状态已更新或被取消"@)),
        rows_affected != 0 ==> r is Ok,
{
    if rows_affected == 0 {
        Err(AppError::Validation(join3("订单 ", order_code, " 状态已更新或被取消")))
    } else {
        Ok(())
    }
}

/// A status update that changed no row lost a race with another update:
/// `Conflict("订单 {code} 状态已变更，请刷新后重试")`.
pub fn check_status_update_applied(rows_affected: u64, order_code: &str) -> (r: Result<(), AppError>)
    ensures
        rows_affected == 0 ==> (r matches Err(AppError::Conflict(m)) && m@ == order_message(order_code@,
            " 状态已变更，请刷新后重试"@)),
        rows_affected != 0 ==> r is Ok,
{
    if rows_affected == 0 {
        Err(AppError::Conflict(join3("订单 ", order_code, " 状态已变更，请刷新后重试")))
    } else {
        Ok(())
    }
}

/// The message sent to a provider's users when an order is assigned to it.
pub fn new_order_message(order_code: &str) -> (m: String)
    ensures
        m@ == "您有新的订单 "@ + order_code@ + " 需要处理"@,
{
    join3("您有新的订单 ", order_code, " 需要处理")
}

/// Where a provider's view of an order takes its lines from.
#[derive(Clone, Copy, Debug, PartialEq, Eq, Structural)]
pub enum ProviderRoundSource {
    /// The ordered lines, to be delivered in full (`NORMAL` delivery).
    OrderDetails,
    /// The lines of the last exchange request (`EXCHANGE` delivery).
    ExchangeRecords,
    /// No line is to be delivered (`NORMAL` delivery).
    Nothing,
}

pub open spec fn spec_round_source(s: OrderStatus) -> ProviderRoundSource {
    match s {
        OrderStatus::Assigned => ProviderRoundSource::OrderDetails,
        OrderStatus::ExchangeRequested => ProviderRoundSource::ExchangeRecords,
        OrderStatus::ExchangeInProgress => ProviderRoundSource::ExchangeRecords,
        _ => ProviderRoundSource::Nothing,
    }
}

/// The lines a provider sees for an order in status `current`, and the kind of
/// delivery they make.
pub fn provider_round_source(current: OrderStatus) -> (r: (ProviderRoundSource, &'static str))
    ensures
        r.0 == spec_round_source(current),
        r.1@ == (if r.0 == ProviderRoundSource::ExchangeRecords {
            "EXCHANGE"@
        } else {
            "NORMAL"@
        }),
{
    match current {
        OrderStatus::Assigned => (ProviderRoundSource::OrderDetails, "NORMAL"),
        OrderStatus::ExchangeRequested => (ProviderRoundSource::ExchangeRecords, "EXCHANGE"),
        OrderStatus::ExchangeInProgress => (ProviderRoundSource::ExchangeRecords, "EXCHANGE"),
        _ => (ProviderRoundSource::Nothing, "NORMAL"),
    }
}

/// The round number of the next delivery of an order.
pub fn next_delivery_round(last_round: i32) -> (r: i32)
    requires
        last_round < i32::MAX,
    ensures
        r == last_round + 1,
{
    last_round + 1
}

/// The parent and round of the next inspection of an order, given its last
/// inspection (id, round): the first inspection has no parent and round 1.
pub fn next_inspection_round(last: Option<(i32, i32)>) -> (r: (Option<i32>, i32))
    requires
        last matches Some((_, round)) ==> round < i32::MAX,
    ensures
        match last {
            Some((id, round)) => r.0 == Some(id) && r.1 == round + 1,
            None => r.0 is None && r.1 == 1,
        },
{
    match last {
        Some((id, round)) => (Some(id), round + 1),
        None => (None, 1),
    }
}


/// An exchange delivery must name at least one line:
/// `NotFound("订单 {code} 没有找到换货商品")` otherwise.
pub fn check_exchange_items_present(item_count: usize, order_code: &str) -> (r: Result<(), AppError>)
    ensures
        item_count == 0 ==> (r matches Err(AppError::NotFound(m)) && m@ == order_message(order_code@,
            " 没有找到换货商品"@)),
        item_count > 0 ==> r is Ok,
{
    if item_count == 0 {
        Err(AppError::NotFound(join3("订单 ", order_code, " 没有找到换货商品")))
    } else {
        Ok(())
    }
}

/// The delivery that an exchange is shipped with: the one being prepared, or
/// `NotFound("订单 {code} 没有找到状态为 PREPARING 的配送记录")` when there is none.
pub fn preparing_delivery(delivery_id: Option<i32>, order_code: &str) -> (r: Result<i32, AppError>)
    ensures
        match delivery_id {
            Some(id) => r == Ok::<i32, AppError>(id),
            None => r matches Err(AppError::NotFound(m)) && m@ == order_message(order_code@,
                " 没有找到状态为 PREPARING 的配送记录"@),
        },
{
    match delivery_id {
        Some(id) => Ok(id),
        None => Err(AppError::NotFound(join3("订单 ", order_code, " 没有找到状态为 PREPARING 的配送记录"))),
    }
}

/// The message of an exchange delivery that did not find every line it names.
pub open spec fn missing_lines_message(order_code: Seq<char>, expected: nat, updated: nat) -> Seq<char> {
    "订单 "@ + order_code + " 中部分订单明细未找到，无法更新换货配送明细。期望更新 "@ + decimal(expected) + " 条，实际更新 "@
        + decimal(updated) + " 条"@
}

/// Every line named by an exchange delivery must have been updated;
/// otherwise `NotFound` says how many were expected and how many were found.
pub fn check_exchange_lines_updated(expected: u64, updated: u64, order_code: &str) -> (r: Result<(), AppError>)
    ensures
        expected == updated ==> r is Ok,
        expected != updated ==> (r matches Err(AppError::NotFound(m)) && m@ == missing_lines_message(
            order_code@,
            expected as nat,
            updated as nat,
        )),
{
    if expected == updated {
        Ok(())
    } else {
        let mut m = join3("订单 ", order_code, " 中部分订单明细未找到，无法更新换货配送明细。期望更新 ");
        let e = decimal_text(expected);
        m.append(e.as_str());
        m.append(" 条，实际更新 ");
        let u = decimal_text(updated);
        m.append(u.as_str());
        m.append(" 条");
        Err(AppError::NotFound(m))
    }
}

/// A first delivery names an active delivery staff member; when none was
/// found the delivery is refused with `NotFound("配送员 {id_card} 没有找到")`.
pub fn check_delivery_staff_found(rows_inserted: u64, id_card: &str) -> (r: Result<(), AppError>)
    ensures
        rows_inserted == 0 ==> (r matches Err(AppError::NotFound(m)) && m@ == "配送员 "@ + id_card@ + " 没有找到"@),
        rows_inserted != 0 ==> r is Ok,
{
    if rows_inserted == 0 {
        Err(AppError::NotFound(join3("配送员 ", id_card, " 没有找到")))
    } else {
        Ok(())
    }
}


/// Law: once every line of an inspection is signed for, the inspection
/// passes and the order moves on: the market accepts it, the customer
/// completes it.
pub proof fn law_fully_signed_inspection_moves_order_on(results: Seq<Seq<char>>, tenant: TenantType)
    requires
        results.len() > 0,
        forall|i: int| 0 <= i < results.len() ==> results[i] == "SIGN"@,
    ensures
        spec_action_after(spec_outcome_text(spec_outcome(results)), tenant) == (if tenant == TenantType::Market {
            OrderAction::MarketAccept
        } else {
            OrderAction::Complete
        }),
{
    crate::inspection::law_all_signed_passes(results);
    reveal_strlit("PASS");
    reveal_strlit("EXCHANGE");
    assert("PASS"@[0] != "EXCHANGE"@[0]);
}

/// Law: an inspection with no line left pending and some line exchanged asks
/// for an exchange, by whichever tenant inspected.
pub proof fn law_exchanged_line_leads_to_exchange(results: Seq<Seq<char>>, i: int, tenant: TenantType)
    requires
        0 <= i < results.len(),
        results[i] == "EXCHANGE"@,
        !has_result(results, "PENDING"@),
    ensures
        spec_action_after(spec_outcome_text(spec_outcome(results)), tenant) == (if tenant == TenantType::Market {
            OrderAction::MarketExchange
        } else {
            OrderAction::CustomerExchange
        }),
{
    assert(has_result(results, "EXCHANGE"@));
    assert(spec_outcome(results) == InspectionOutcome::Exchange);
}

/// Law: a partially passed inspection leads on as a passed one does: the
/// market accepts the order, the customer completes it; neither cancels it.
pub proof fn law_partial_inspection_acts_as_pass(
    partial: &str,
    pass: &str,
    tenant: TenantType,
    after_partial: OrderAction,
    after_pass: OrderAction,
)
    requires
        partial@ == "PARTIAL"@,
        pass@ == "PASS"@,
        call_ensures(action_after_inspection, (partial, tenant), after_partial),
        call_ensures(action_after_inspection, (pass, tenant), after_pass),
    ensures
        after_partial == after_pass,
        after_partial == (if tenant == TenantType::Market {
            OrderAction::MarketAccept
        } else {
            OrderAction::Complete
        }),
        after_partial != OrderAction::Cancel,
{
    reveal_strlit("PARTIAL");
    reveal_strlit("PASS");
    reveal_strlit("EXCHANGE");
    assert("PARTIAL"@[1] != "EXCHANGE"@[1]);
    assert("PASS"@.len() != "EXCHANGE"@.len());
}

/// Law: an inspection that ended in an exchange asks for new goods (from the
/// provider when the market inspected, from the market when the customer
/// did); one that neither passed, in full or in part, nor asked for an
/// exchange cancels the order.
pub proof fn law_inspection_result_decides_exchange_or_cancel(result: &str, tenant: TenantType, a: OrderAction)
    requires
        call_ensures(action_after_inspection, (result, tenant), a),
    ensures
        result@ == "EXCHANGE"@ ==> a == (if tenant == TenantType::Market {
            OrderAction::MarketExchange
        } else {
            OrderAction::CustomerExchange
        }),
        result@ != "EXCHANGE"@ && result@ != "PASS"@ && result@ != "PARTIAL"@ ==> a == OrderAction::Cancel,
{
}

/// Law: a provider sees an order whose exchange was requested or is in
/// progress through its exchange records, as an `EXCHANGE` delivery; an
/// assigned order through its ordered lines, as a `NORMAL` delivery; any other
/// order shows no line to deliver.
pub proof fn law_provider_sees_exchange_lines_during_exchange(s: OrderStatus, r: (ProviderRoundSource, &str))
    requires
        call_ensures(provider_round_source, (s,), r),
    ensures
        s == OrderStatus::ExchangeRequested || s == OrderStatus::ExchangeInProgress ==> r.0
            == ProviderRoundSource::ExchangeRecords && r.1@ == "EXCHANGE"@,
        s == OrderStatus::Assigned ==> r.0 == ProviderRoundSource::OrderDetails && r.1@ == "NORMAL"@,
        s != OrderStatus::ExchangeRequested && s != OrderStatus::ExchangeInProgress && s != OrderStatus::Assigned ==> r.0
            == ProviderRoundSource::Nothing && r.1@ == "NORMAL"@,
{
}

/// Law: an order whose delivery date is an earlier day than today, even in
/// the same month, cannot be assigned; one due today or later can.
pub proof fn law_expired_order_is_not_assignable(delivery: CalDate, today: CalDate, code: &str, r: Result<(), AppError>)
    requires
        valid_date(delivery),
        valid_date(today),
        call_ensures(check_assignable, (delivery, today, code), r),
    ensures
        day_key(delivery) < day_key(today) ==> (r matches Err(AppError::Validation(m)) && m@ == "不能指派已过期订单 "@
            + code@),
        delivery.year == today.year && delivery.month == today.month && delivery.day < today.day ==> r is Err,
        day_key(delivery) >= day_key(today) ==> r is Ok,
{
}

} // verus!
