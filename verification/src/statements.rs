use vstd::prelude::*;
use crate::error::AppError;
use crate::tenant::{TenantType, spec_parse_tenant};
use crate::text::{signed_decimal, signed_decimal_text};

verus! {

/// Whose statements a tenant reads: its own as customer, provider or market;
/// any other tenant type is refused with `Internal("Invalid tenant type")`.
pub fn statement_viewer(tenant_type: &str) -> (r: Result<TenantType, AppError>)
    ensures
        match spec_parse_tenant(tenant_type@) {
            Some(t) => r == Ok::<TenantType, AppError>(t),
            None => r matches Err(AppError::Internal(m)) && m@ == "Invalid tenant type"@,
        },
{
    match TenantType::parse(tenant_type) {
        Some(t) => Ok(t),
        None => Err(AppError::internal("Invalid tenant type")),
    }
}

/// The message of a customer–market–provider combination without completed
/// orders to reconcile.
pub open spec fn no_orders_message(customer_id: int, market_id: int, provider_id: int) -> Seq<char> {
    "未找到需要对账的订单: customer_id="@ + signed_decimal(customer_id) + ", market_id="@ + signed_decimal(
        market_id,
    ) + ", provider_id="@ + signed_decimal(provider_id)
}

/// A statement is only made for a combination that has completed orders;
/// otherwise it is refused with `NotFound` naming the combination.
pub fn check_statement_orders(order_count: usize, customer_id: i32, market_id: i32, provider_id: i32) -> (r:
    Result<(), AppError>)
    ensures
        order_count > 0 ==> r is Ok,
        order_count == 0 ==> (r matches Err(AppError::NotFound(m)) && m@ == no_orders_message(
            customer_id as int,
            market_id as int,
            provider_id as int,
        )),
{
    if order_count > 0 {
        return Ok(());
    }
    let mut m = String::from_str("未找到需要对账的订单: customer_id=");
    let c = signed_decimal_text(customer_id as i64);
    m.append(c.as_str());
    m.append(", market_id=");
    let k = signed_decimal_text(market_id as i64);
    m.append(k.as_str());
    m.append(", provider_id=");
    let p = signed_decimal_text(provider_id as i64);
    m.append(p.as_str());
    Err(AppError::NotFound(m))
}

} // verus!
