use vstd::prelude::*;
use crate::error::AppError;
use crate::text::{contains_text, join2, join3, spec_contains, text_eq};

verus! {

/// What `str::to_uppercase` gives for a text (Unicode upper-casing).
pub uninterp spec fn uppercase_of(s: Seq<char>) -> Seq<char>;

/// `str::to_uppercase`. Claimed: the result is `uppercase_of` the text.
#[verifier::external_body]
pub(crate) fn to_uppercase(s: &str) -> (r: String)
    ensures
        r@ == uppercase_of(s@),
{
    s.to_uppercase()
}

/// The operations on a provider's delivery staff.
#[derive(Clone, Copy, Debug, PartialEq, Eq, Structural)]
pub enum DeliveryStaffOperation {
    List,
    Create,
    Toggle,
}

pub open spec fn delivery_staff_refusal(op: DeliveryStaffOperation) -> Seq<char> {
    match op {
        DeliveryStaffOperation::List => "Only provider can get delivery staff"@,
        DeliveryStaffOperation::Create => "Only provider can create delivery staff"@,
        DeliveryStaffOperation::Toggle => "Only provider can disable or enable delivery staff"@,
    }
}

/// Only a provider manages delivery staff; anyone else is refused with
/// `Forbidden` and the operation's message.
pub fn delivery_staff_access(tenant_type: &str, op: DeliveryStaffOperation) -> (r: Result<(), AppError>)
    ensures
        tenant_type@ == "PROVIDER"@ ==> r is Ok,
        tenant_type@ != "PROVIDER"@ ==> (r matches Err(AppError::Forbidden(m)) && m@ == delivery_staff_refusal(op)),
{
    if text_eq(tenant_type, "PROVIDER") {
        Ok(())
    } else {
        match op {
            DeliveryStaffOperation::List => Err(AppError::forbidden("Only provider can get delivery staff")),
            DeliveryStaffOperation::Create => Err(AppError::forbidden("Only provider can create delivery staff")),
            DeliveryStaffOperation::Toggle => Err(
                AppError::forbidden("Only provider can disable or enable delivery staff"),
            ),
        }
    }
}

/// A new delivery staff member must not reuse an ID card number:
/// `Conflict("身份证号 {id_card} 已存在")`.
pub fn check_id_card_unused(id_card_exists: bool, id_card: &str) -> (r: Result<(), AppError>)
    ensures
        id_card_exists ==> (r matches Err(AppError::Conflict(m)) && m@ == "身份证号 "@ + id_card@ + " 已存在"@),
        !id_card_exists ==> r is Ok,
{
    if id_card_exists {
        Err(AppError::Conflict(join3("身份证号 ", id_card, " 已存在")))
    } else {
        Ok(())
    }
}

/// Only a market sets its customers' discounts; anyone else is refused with
/// `Auth("Only market can perform this operation")`.
pub fn discount_access(tenant_type: &str) -> (r: Result<(), AppError>)
    ensures
        tenant_type@ == "MARKET"@ ==> r is Ok,
        tenant_type@ != "MARKET"@ ==> (r matches Err(AppError::Auth(m)) && m@
            == "Only market can perform this operation"@),
{
    if text_eq(tenant_type, "MARKET") {
        Ok(())
    } else {
        Err(AppError::auth("Only market can perform this operation"))
    }
}

/// The operations a market administrator performs on the market's tenants.
#[derive(Clone, Copy, Debug, PartialEq, Eq, Structural)]
pub enum TenantOperation {
    Create,
    List,
    Disable,
}

pub open spec fn tenant_refusal(op: TenantOperation) -> Seq<char> {
    match op {
        TenantOperation::Create => "Only market admin can create tenant"@,
        TenantOperation::List => "Only market admin can list tenants"@,
        TenantOperation::Disable => "Only market admin can disable tenant"@,
    }
}

/// Only a market administrator (first role, upper-cased, is `MARKET_ADMIN`)
/// manages the market's tenants; anyone else gets `Forbidden` and the
/// operation's message.
pub fn market_admin_access(roles: &Vec<String>, op: TenantOperation) -> (r: Result<(), AppError>)
    requires
        roles@.len() > 0,
    ensures
        uppercase_of(roles@[0]@) == "MARKET_ADMIN"@ ==> r is Ok,
        uppercase_of(roles@[0]@) != "MARKET_ADMIN"@ ==> (r matches Err(AppError::Forbidden(m)) && m@
            == tenant_refusal(op)),
{
    let role = to_uppercase(roles[0].as_str());
    if text_eq(role.as_str(), "MARKET_ADMIN") {
        Ok(())
    } else {
        match op {
            TenantOperation::Create => Err(AppError::forbidden("Only market admin can create tenant")),
            TenantOperation::List => Err(AppError::forbidden("Only market admin can list tenants")),
            TenantOperation::Disable => Err(AppError::forbidden("Only market admin can disable tenant")),
        }
    }
}

/// A market administrator creating a tenant: only the super administrator
/// creates markets (`Validation("Only super admin can create market")`).
pub fn create_tenant_access(roles: &Vec<String>, tenant_type: &str) -> (r: Result<(), AppError>)
    requires
        roles@.len() > 0,
    ensures
        uppercase_of(roles@[0]@) != "MARKET_ADMIN"@ ==> (r matches Err(AppError::Forbidden(m)) && m@
            == "Only market admin can create tenant"@),
        uppercase_of(roles@[0]@) == "MARKET_ADMIN"@ ==> (if uppercase_of(tenant_type@) == "MARKET"@ {
            r matches Err(AppError::Validation(m)) && m@ == "Only super admin can create market"@
        } else {
            r is Ok
        }),
{
    market_admin_access(roles, TenantOperation::Create)?;
    let kind = to_uppercase(tenant_type);
    if text_eq(kind.as_str(), "MARKET") {
        Err(AppError::validation("Only super admin can create market"))
    } else {
        Ok(())
    }
}

/// Some role of the list contains `ADMIN`.
pub open spec fn has_admin_role(roles: Seq<String>) -> bool {
    exists|i: int| 0 <= i < roles.len() && spec_contains(#[trigger] roles[i]@, "ADMIN"@)
}

/// Only a user with an administrator role disables users; anyone else gets
/// `Forbidden("You are not allowed to disable user")`.
pub fn user_disable_access(roles: &Vec<String>) -> (r: Result<(), AppError>)
    ensures
        has_admin_role(roles@) ==> r is Ok,
        !has_admin_role(roles@) ==> (r matches Err(AppError::Forbidden(m)) && m@
            == "You are not allowed to disable user"@),
{
    let mut i: usize = 0;
    while i < roles.len()
        invariant
            i <= roles.len(),
            forall|j: int| 0 <= j < i ==> !spec_contains(#[trigger] roles@[j]@, "ADMIN"@),
        decreases roles.len() - i,
    {
        if contains_text(roles[i].as_str(), "ADMIN") {
            return Ok(());
        }
        i = i + 1;
    }
    Err(AppError::forbidden("You are not allowed to disable user"))
}

/// The super administrator role (id 1) is never edited, and a role is only
/// edited at its own path: `Forbidden("超级管理员角色不能修改")`.
pub fn role_update_access(payload_id: i32, role_id: i32) -> (r: Result<(), AppError>)
    ensures
        (payload_id != role_id || payload_id == 1) ==> (r matches Err(AppError::Forbidden(m)) && m@
            == "超级管理员角色不能修改"@),
        !(payload_id != role_id || payload_id == 1) ==> r is Ok,
{
    if payload_id != role_id || payload_id == 1 {
        Err(AppError::forbidden("超级管理员角色不能修改"))
    } else {
        Ok(())
    }
}

/// The permissions of the super administrator role (id 1) are never edited:
/// `Forbidden("超级管理员角色不能修改")`.
pub fn role_permissions_access(role_id: i32) -> (r: Result<(), AppError>)
    ensures
        role_id == 1 ==> (r matches Err(AppError::Forbidden(m)) && m@ == "超级管理员角色不能修改"@),
        role_id != 1 ==> r is Ok,
{
    if role_id == 1 {
        Err(AppError::forbidden("超级管理员角色不能修改"))
    } else {
        Ok(())
    }
}

/// Only the super administrator resets its own password:
/// `Forbidden("No permission")`.
pub fn super_admin_access(is_super_admin: bool) -> (r: Result<(), AppError>)
    ensures
        is_super_admin ==> r is Ok,
        !is_super_admin ==> (r matches Err(AppError::Forbidden(m)) && m@ == "No permission"@),
{
    if is_super_admin {
        Ok(())
    } else {
        Err(AppError::forbidden("No permission"))
    }
}

/// Whether a user sees a product as its owner: every first role but `CUSTOMER`.
pub fn is_product_owner(roles: &Vec<String>) -> (b: bool)
    requires
        roles@.len() > 0,
    ensures
        b == (roles@[0]@ != "CUSTOMER"@),
{
    !text_eq(roles[0].as_str(), "CUSTOMER")
}

/// Whether a role is the pricer's.
pub fn is_pricer_role(role: &str) -> (b: bool)
    ensures
        b == (role@ == "PRICER"@),
{
    text_eq(role, "PRICER")
}

/// The price status a role works on in the daily price comparison: a pricer
/// looks at published prices, any other role at pending ones.
pub fn price_status_for_role(role: &str) -> (s: &'static str)
    ensures
        s@ == (if role@ == "PRICER"@ {
            "PUBLISHED"@
        } else {
            "PENDING"@
        }),
{
    if is_pricer_role(role) {
        "PUBLISHED"
    } else {
        "PENDING"
    }
}

/// The price status to list: the one asked for, if it is `PENDING`,
/// `REJECTED` or `PUBLISHED`; `PENDING` when none is asked for. Any other
/// status is refused.
pub fn target_price_status(status: Option<&str>) -> (r: Result<String, AppError>)
    ensures
        match status {
            None => r matches Ok(s) && s@ == "PENDING"@,
            Some(t) => if t@ == "PENDING"@ || t@ == "REJECTED"@ || t@ == "PUBLISHED"@ {
                r matches Ok(s) && s@ == t@
            } else {
                r matches Err(AppError::Validation(m)) && m@
                    == "Invalid status. Must be one of: PENDING, REJECTED, PUBLISHED"@
            },
        },
{
    match status {
        None => Ok(String::from_str("PENDING")),
        Some(t) => {
            if text_eq(t, "PENDING") || text_eq(t, "REJECTED") || text_eq(t, "PUBLISHED") {
                Ok(String::from_str(t))
            } else {
                Err(AppError::validation("Invalid status. Must be one of: PENDING, REJECTED, PUBLISHED"))
            }
        },
    }
}

/// The tenant type of a registration, upper-cased: it must be given
/// (`Validation("Invalid username or password")` otherwise) and name a
/// customer, a provider or a market (`Validation("Invalid tenant type")`).
pub fn registration_tenant_type(tenant_type: &str) -> (r: Result<String, AppError>)
    ensures
        tenant_type@.len() == 0 ==> (r matches Err(AppError::Validation(m)) && m@ == "Invalid username or password"@),
        tenant_type@.len() > 0 ==> {
            let u = uppercase_of(tenant_type@);
            if u == "CUSTOMER"@ || u == "PROVIDER"@ || u == "MARKET"@ {
                r matches Ok(s) && s@ == u
            } else {
                r matches Err(AppError::Validation(m)) && m@ == "Invalid tenant type"@
            }
        },
{
    if tenant_type.unicode_len() == 0 {
        return Err(AppError::validation("Invalid username or password"));
    }
    let upper = to_uppercase(tenant_type);
    if text_eq(upper.as_str(), "CUSTOMER") || text_eq(upper.as_str(), "PROVIDER") || text_eq(
        upper.as_str(),
        "MARKET",
    ) {
        Ok(upper)
    } else {
        Err(AppError::validation("Invalid tenant type"))
    }
}

/// The administrator role of a tenant type: `{TYPE}_ADMIN`.
pub fn admin_role_for(tenant_type_upper: &str) -> (r: String)
    ensures
        r@ == tenant_type_upper@ + "_ADMIN"@,
{
    join2(tenant_type_upper, "_ADMIN")
}

/// The welcome message sent to the administrator of a newly registered tenant.
pub fn welcome_message(username: &str) -> (m: String)
    ensures
        m@ == "欢迎, "@ + username@ + "! 您已成功注册，请先完善您的信息"@,
{
    join3("欢迎, ", username, "! 您已成功注册，请先完善您的信息")
}


/// A registration must bring a new username and a new tenant name:
/// `Conflict("Username already exists")`, then `Conflict("Tenant already exists")`.
pub fn registration_conflicts(user_exists: bool, tenant_exists: bool) -> (r: Result<(), AppError>)
    ensures
        user_exists ==> (r matches Err(AppError::Conflict(m)) && m@ == "Username already exists"@),
        !user_exists && tenant_exists ==> (r matches Err(AppError::Conflict(m)) && m@ == "Tenant already exists"@),
        !user_exists && !tenant_exists ==> r is Ok,
{
    if user_exists {
        Err(AppError::conflict("Username already exists"))
    } else if tenant_exists {
        Err(AppError::conflict("Tenant already exists"))
    } else {
        Ok(())
    }
}

/// A user added to a tenant must have a new username: `Conflict("User already exists")`.
pub fn check_new_user(user_exists: bool) -> (r: Result<(), AppError>)
    ensures
        user_exists ==> (r matches Err(AppError::Conflict(m)) && m@ == "User already exists"@),
        !user_exists ==> r is Ok,
{
    if user_exists {
        Err(AppError::conflict("User already exists"))
    } else {
        Ok(())
    }
}

/// A market creates a tenant only under a new name and when the market itself
/// is known: `Conflict("Tenant already exists")`, then `NotFound("Market not found")`.
/// On success, the market's id.
pub fn tenant_creation_market(tenant_exists: bool, market_id: Option<i32>) -> (r: Result<i32, AppError>)
    ensures
        tenant_exists ==> (r matches Err(AppError::Conflict(m)) && m@ == "Tenant already exists"@),
        !tenant_exists ==> match market_id {
            Some(id) => r == Ok::<i32, AppError>(id),
            None => r matches Err(AppError::NotFound(m)) && m@ == "Market not found"@,
        },
{
    if tenant_exists {
        return Err(AppError::conflict("Tenant already exists"));
    }
    match market_id {
        Some(id) => Ok(id),
        None => Err(AppError::not_found("Market not found")),
    }
}

/// The id of an active provider found by its hash; the id 0 means none was
/// found: `NotFound("Provider not found")`.
pub fn provider_id_found(id: i32) -> (r: Result<i32, AppError>)
    ensures
        id == 0 ==> (r matches Err(AppError::NotFound(m)) && m@ == "Provider not found"@),
        id != 0 ==> r == Ok::<i32, AppError>(id),
{
    if id == 0 {
        Err(AppError::not_found("Provider not found"))
    } else {
        Ok(id)
    }
}

/// A new delivery staff member must have been stored:
/// `NotFound("Delivery staff not created")` otherwise.
pub fn check_staff_created(rows_affected: u64) -> (r: Result<(), AppError>)
    ensures
        rows_affected == 0 ==> (r matches Err(AppError::NotFound(m)) && m@ == "Delivery staff not created"@),
        rows_affected != 0 ==> r is Ok,
{
    if rows_affected == 0 {
        Err(AppError::not_found("Delivery staff not created"))
    } else {
        Ok(())
    }
}

/// Switching a staff member on or off must find the member among the
/// provider's staff: `NotFound("No delivery staff updated")` otherwise.
pub fn check_staff_toggled(rows_affected: u64) -> (r: Result<(), AppError>)
    ensures
        rows_affected == 0 ==> (r matches Err(AppError::NotFound(m)) && m@ == "No delivery staff updated"@),
        rows_affected != 0 ==> r is Ok,
{
    if rows_affected == 0 {
        Err(AppError::not_found("No delivery staff updated"))
    } else {
        Ok(())
    }
}

} // verus!
