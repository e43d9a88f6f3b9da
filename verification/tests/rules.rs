use std::sync::Arc;

use marketplace_core::access::{
    admin_role_for, check_id_card_unused, check_new_user, check_staff_created, check_staff_toggled,
    create_tenant_access, delivery_staff_access, discount_access, is_pricer_role, is_product_owner,
    market_admin_access, price_status_for_role, provider_id_found, registration_conflicts,
    registration_tenant_type, role_permissions_access, role_update_access, super_admin_access,
    target_price_status, tenant_creation_market, user_disable_access, welcome_message,
    DeliveryStaffOperation, TenantOperation,
};
use marketplace_core::announcements::{announcement_plan, current_announcement_plan, AnnouncementFilter};
use marketplace_core::error::{service_failure, AppError};
use marketplace_core::paging::{message_page_window, price_page_window};
use marketplace_core::requirements::{processing_requirements, ProcessingService};
use marketplace_core::statements::{check_statement_orders, statement_viewer};
use marketplace_core::system_log::{LogLevel, SystemLogEntry, SystemLogService};
use marketplace_core::tenant::TenantType;
use marketplace_core::tenant_admin::CreateTenantWithAdminParams;
use marketplace_core::users::{check_user_changed, market_found, profile_found, user_deletion};
use marketplace_core::text::{contains_text, decimal_text, join2, join3, signed_decimal_text, text_eq};

fn roles(list: &[&str]) -> Vec<String> {
    list.iter().map(|r| r.to_string()).collect()
}

#[test]
fn delivery_staff_is_managed_by_providers_only() {
    assert_eq!(delivery_staff_access("PROVIDER", DeliveryStaffOperation::Create), Ok(()));
    assert_eq!(
        delivery_staff_access("MARKET", DeliveryStaffOperation::Create),
        Err(AppError::Forbidden("Only provider can create delivery staff".to_string()))
    );
    assert_eq!(
        delivery_staff_access("provider", DeliveryStaffOperation::List),
        Err(AppError::Forbidden("Only provider can get delivery staff".to_string()))
    );
}

#[test]
fn a_known_id_card_is_a_conflict() {
    assert_eq!(
        check_id_card_unused(true, "110101199001011234"),
        Err(AppError::Conflict("身份证号 110101199001011234 已存在".to_string()))
    );
    assert_eq!(check_id_card_unused(false, "110101199001011234"), Ok(()));
}

#[test]
fn discounts_are_set_by_markets() {
    assert_eq!(discount_access("MARKET"), Ok(()));
    assert_eq!(
        discount_access("CUSTOMER"),
        Err(AppError::Auth("Only market can perform this operation".to_string()))
    );
}

#[test]
fn market_admin_manages_tenants() {
    assert_eq!(market_admin_access(&roles(&["market_admin"]), TenantOperation::List), Ok(()));
    assert_eq!(
        market_admin_access(&roles(&["PRICER", "MARKET_ADMIN"]), TenantOperation::Disable),
        Err(AppError::Forbidden("Only market admin can disable tenant".to_string()))
    );
    assert_eq!(
        market_admin_access(&roles(&["CUSTOMER_ADMIN"]), TenantOperation::List),
        Err(AppError::Forbidden("Only market admin can list tenants".to_string()))
    );
}

#[test]
fn only_super_admin_creates_markets() {
    assert_eq!(create_tenant_access(&roles(&["MARKET_ADMIN"]), "customer"), Ok(()));
    assert_eq!(
        create_tenant_access(&roles(&["MARKET_ADMIN"]), "market"),
        Err(AppError::Validation("Only super admin can create market".to_string()))
    );
    assert_eq!(
        create_tenant_access(&roles(&["PROVIDER_ADMIN"]), "customer"),
        Err(AppError::Forbidden("Only market admin can create tenant".to_string()))
    );
}

#[test]
fn disabling_users_needs_an_admin_role() {
    assert_eq!(user_disable_access(&roles(&["PRICER", "CUSTOMER_ADMIN"])), Ok(()));
    assert_eq!(
        user_disable_access(&roles(&["PRICER", "admin"])),
        Err(AppError::Forbidden("You are not allowed to disable user".to_string()))
    );
    assert_eq!(
        user_disable_access(&roles(&[])),
        Err(AppError::Forbidden("You are not allowed to disable user".to_string()))
    );
}

#[test]
fn super_admin_role_is_protected() {
    assert_eq!(role_update_access(3, 3), Ok(()));
    assert_eq!(role_update_access(1, 1), Err(AppError::Forbidden("超级管理员角色不能修改".to_string())));
    assert_eq!(role_update_access(3, 4), Err(AppError::Forbidden("超级管理员角色不能修改".to_string())));
    assert_eq!(role_permissions_access(2), Ok(()));
    assert_eq!(role_permissions_access(1), Err(AppError::Forbidden("超级管理员角色不能修改".to_string())));
    assert_eq!(super_admin_access(true), Ok(()));
    assert_eq!(super_admin_access(false), Err(AppError::Forbidden("No permission".to_string())));
}

#[test]
fn pricing_roles() {
    assert!(is_product_owner(&roles(&["PROVIDER_ADMIN"])));
    assert!(!is_product_owner(&roles(&["CUSTOMER"])));
    assert!(is_pricer_role("PRICER"));
    assert!(!is_pricer_role("AUDITOR"));
    assert_eq!(price_status_for_role("PRICER"), "PUBLISHED");
    assert_eq!(price_status_for_role("AUDITOR"), "PENDING");
}

#[test]
fn price_status_to_list() {
    assert_eq!(target_price_status(None), Ok("PENDING".to_string()));
    assert_eq!(target_price_status(Some("PUBLISHED")), Ok("PUBLISHED".to_string()));
    assert_eq!(
        target_price_status(Some("APPROVED")),
        Err(AppError::Validation("Invalid status. Must be one of: PENDING, REJECTED, PUBLISHED".to_string()))
    );
    assert_eq!(target_price_status(Some("REJECTED")), Ok("REJECTED".to_string()));
    assert_eq!(
        target_price_status(Some("DRAFT")),
        Err(AppError::Validation("Invalid status. Must be one of: PENDING, REJECTED, PUBLISHED".to_string()))
    );
}

#[test]
fn registration_tenant_types() {
    assert_eq!(registration_tenant_type("customer"), Ok("CUSTOMER".to_string()));
    assert_eq!(registration_tenant_type("Market"), Ok("MARKET".to_string()));
    assert_eq!(
        registration_tenant_type(""),
        Err(AppError::Validation("Invalid username or password".to_string()))
    );
    assert_eq!(
        registration_tenant_type("farmer"),
        Err(AppError::Validation("Invalid tenant type".to_string()))
    );
    assert_eq!(admin_role_for("PROVIDER"), "PROVIDER_ADMIN");
    assert_eq!(welcome_message("alice"), "欢迎, alice! 您已成功注册，请先完善您的信息");
}

#[test]
fn registration_and_creation_conflicts() {
    assert_eq!(
        registration_conflicts(true, true),
        Err(AppError::Conflict("Username already exists".to_string()))
    );
    assert_eq!(
        registration_conflicts(false, true),
        Err(AppError::Conflict("Tenant already exists".to_string()))
    );
    assert_eq!(registration_conflicts(false, false), Ok(()));
    assert_eq!(check_new_user(true), Err(AppError::Conflict("User already exists".to_string())));
    assert_eq!(check_new_user(false), Ok(()));
    assert_eq!(
        tenant_creation_market(true, Some(4)),
        Err(AppError::Conflict("Tenant already exists".to_string()))
    );
    assert_eq!(tenant_creation_market(false, None), Err(AppError::NotFound("Market not found".to_string())));
    assert_eq!(tenant_creation_market(false, Some(4)), Ok(4));
}

#[test]
fn staff_storage_checks() {
    assert_eq!(provider_id_found(0), Err(AppError::NotFound("Provider not found".to_string())));
    assert_eq!(provider_id_found(12), Ok(12));
    assert_eq!(check_staff_created(0), Err(AppError::NotFound("Delivery staff not created".to_string())));
    assert_eq!(check_staff_created(1), Ok(()));
    assert_eq!(check_staff_toggled(0), Err(AppError::NotFound("No delivery staff updated".to_string())));
    assert_eq!(check_staff_toggled(1), Ok(()));
}

#[test]
fn announcement_plans() {
    let morning = announcement_plan(9, false, None, None, None);
    assert!(morning.consider_previous_day);
    assert_eq!(morning.filter, AnnouncementFilter { level1: 759, level3: None, name_pattern: None });
    let afternoon = announcement_plan(12, false, None, Some(3), Some(42));
    assert!(!afternoon.consider_previous_day);
    assert_eq!(afternoon.filter, AnnouncementFilter { level1: 3, level3: Some(42), name_pattern: None });
    let dated = announcement_plan(8, true, Some("白菜"), Some(3), None);
    assert!(!dated.consider_previous_day);
    assert_eq!(
        dated.filter,
        AnnouncementFilter { level1: 3, level3: None, name_pattern: Some("%白菜%".to_string()) }
    );
    let named = announcement_plan(15, false, Some("葱"), None, Some(8));
    assert_eq!(
        named.filter,
        AnnouncementFilter { level1: 759, level3: Some(8), name_pattern: Some("%葱%".to_string()) }
    );
    let now = current_announcement_plan(true, None, None, Some(7));
    assert!(!now.consider_previous_day);
    assert_eq!(now.filter, AnnouncementFilter { level1: 759, level3: Some(7), name_pattern: None });
}

#[test]
fn message_pages() {
    let w = message_page_window(None, None);
    assert_eq!((w.page, w.page_size, w.offset), (1, 20, 0));
    let w = message_page_window(Some(3), Some(500));
    assert_eq!((w.page, w.page_size, w.offset), (3, 100, 200));
    let w = message_page_window(Some(-4), Some(0));
    assert_eq!((w.page, w.page_size, w.offset), (1, 1, 0));
    let w = message_page_window(Some(5), Some(15));
    assert_eq!((w.page, w.page_size, w.offset), (5, 15, 60));
}

#[test]
fn price_pages() {
    let w = price_page_window(None, None);
    assert_eq!((w.page, w.page_size, w.offset), (1, 50, 0));
    let w = price_page_window(Some(4), Some(10));
    assert_eq!((w.page, w.page_size, w.offset), (4, 10, 30));
}

#[test]
fn processing_requirements_text() {
    assert_eq!(processing_requirements(&vec![]), None);
    let services = vec![
        ProcessingService { name: "切丝".to_string(), description: Some("细".to_string()) },
        ProcessingService { name: "去皮".to_string(), description: None },
    ];
    assert_eq!(processing_requirements(&services), Some("切丝:细,去皮:".to_string()));
    let one = vec![ProcessingService { name: "wash".to_string(), description: Some("twice".to_string()) }];
    assert_eq!(processing_requirements(&one), Some("wash:twice".to_string()));
}

#[test]
fn statements_by_tenant_type() {
    assert_eq!(statement_viewer("CUSTOMER"), Ok(TenantType::Customer));
    assert_eq!(statement_viewer("PROVIDER"), Ok(TenantType::Provider));
    assert_eq!(statement_viewer("MARKET"), Ok(TenantType::Market));
    assert_eq!(statement_viewer("market"), Err(AppError::Internal("Invalid tenant type".to_string())));
}

#[test]
fn statements_need_orders() {
    assert_eq!(check_statement_orders(3, 1, 2, 3), Ok(()));
    assert_eq!(
        check_statement_orders(0, 12, 7, -5),
        Err(AppError::NotFound("未找到需要对账的订单: customer_id=12, market_id=7, provider_id=-5".to_string()))
    );
}

#[test]
fn system_log_service_keeps_its_store() {
    let store = Arc::new(41u32);
    let service = SystemLogService::new(store.clone());
    assert!(Arc::ptr_eq(service.repo(), &store));
    assert_eq!(**service.repo(), 41);
}

#[test]
fn builder_with_every_field() {
    let params = CreateTenantWithAdminParams::builder()
        .tenant_type("CUSTOMER")
        .tenant_name("鲜果店")
        .tenant_hash_name("ab23cdef")
        .username("alice")
        .name("Alice")
        .hashed_password("$2b$12$hash")
        .role("CUSTOMER_ADMIN")
        .build()
        .unwrap();
    assert_eq!(params.name, "Alice");
    assert_eq!(params.tenant_type, "CUSTOMER");
    assert_eq!(params.tenant_name, "鲜果店");
    assert_eq!(params.tenant_hash_name, "ab23cdef");
    assert_eq!(params.username, "alice");
    assert_eq!(params.hashed_password, "$2b$12$hash");
    assert_eq!(params.role, "CUSTOMER_ADMIN");
}

#[test]
fn builder_reports_the_first_missing_field() {
    assert_eq!(CreateTenantWithAdminParams::builder().build().unwrap_err(), "name is required");
    let missing_role = CreateTenantWithAdminParams::builder()
        .name("A")
        .tenant_type("T")
        .tenant_name("N")
        .tenant_hash_name("H")
        .username("U")
        .hashed_password("P")
        .build();
    assert_eq!(missing_role.unwrap_err(), "role is required");
    let missing_hash = CreateTenantWithAdminParams::builder().name("A").tenant_type("T").tenant_name("N").build();
    assert_eq!(missing_hash.unwrap_err(), "tenant_hash_name is required");
    let missing_type = CreateTenantWithAdminParams::builder().name("A").role("R").build();
    assert_eq!(missing_type.unwrap_err(), "tenant_type is required");
}

#[test]
fn builder_later_value_wins() {
    let params = CreateTenantWithAdminParams::builder()
        .name("first")
        .name("second")
        .tenant_type("T")
        .tenant_name("N")
        .tenant_hash_name("H")
        .username("U")
        .hashed_password("P")
        .role("R")
        .build()
        .unwrap();
    assert_eq!(params.name, "second");
}

#[test]
fn text_helpers() {
    assert!(text_eq("订单", "订单"));
    assert!(!text_eq("abc", "abd"));
    assert_eq!(join2("a", "b"), "ab");
    assert_eq!(join3("a", "b", "c"), "abc");
    assert!(contains_text("MARKET_ADMIN", "ADMIN"));
    assert!(!contains_text("ADM", "ADMIN"));
    assert_eq!(decimal_text(0), "0");
    assert_eq!(decimal_text(907), "907");
    assert_eq!(decimal_text(u64::MAX), u64::MAX.to_string());
    assert_eq!(signed_decimal_text(-42), "-42");
    assert_eq!(signed_decimal_text(i64::MIN), i64::MIN.to_string());
}

#[test]
fn error_texts_and_codes() {
    assert_eq!(AppError::bad_request("x").error_code(), 400);
    assert_eq!(AppError::conflict("x").error_code(), 409);
    assert_eq!(AppError::forbidden("x").error_code(), 403);
    assert_eq!(AppError::not_found("x").error_code(), 404);
    assert_eq!(AppError::Database("x".to_string()).error_code(), 500);
    assert_eq!(AppError::forbidden("no").message(), "no");
    assert_eq!(AppError::not_found("gone").to_text(), "Not found: gone");
    assert!(!AppError::internal("x").is_client_error());
}

#[test]
fn failures_under_the_service() {
    assert_eq!(service_failure(true), AppError::Internal("Request timeout".to_string()));
    assert_eq!(service_failure(false), AppError::Internal("Internal server error".to_string()));
}

#[test]
fn user_changes_and_lookups() {
    assert_eq!(check_user_changed(0), Err(AppError::NotFound("User not found".to_string())));
    assert_eq!(check_user_changed(1), Ok(()));
    assert_eq!(user_deletion(false, false), Err(AppError::NotFound("User not found".to_string())));
    assert_eq!(user_deletion(true, true), Err(AppError::Conflict("User already deleted".to_string())));
    assert_eq!(user_deletion(true, false), Ok(()));
    assert_eq!(profile_found(Some("alice")), Ok("alice"));
    assert_eq!(profile_found::<u8>(None), Err(AppError::NotFound("Profile not found".to_string())));
    assert_eq!(market_found(Some(5)), Ok(5));
    assert_eq!(market_found(None), Err(AppError::NotFound("Market not found".to_string())));
}

#[test]
fn test_log_entries_take_their_level() {
    let info = SystemLogEntry::new("test", "test_component", "create").with_message("Test message");
    assert_eq!(info.log_level, "INFO");
    assert_eq!(info.message, "Test message");
    let error = SystemLogEntry::new("test", "test_component", "create")
        .with_message("Error message")
        .with_error_code("ERR_001")
        .with_level(LogLevel::Error);
    assert_eq!(error.log_level, "ERROR");
    assert_eq!(error.message, "Error message");
    assert_eq!(error.error_code, Some("ERR_001".to_string()));
    assert_eq!(error.category, "test");
    assert_eq!(error.component, "test_component");
    assert_eq!(error.action, "create");
    assert_eq!(error.clone().with_level(LogLevel::Info).log_level, "INFO");
    assert_eq!(LogLevel::Fatal.as_str(), "FATAL");
}
