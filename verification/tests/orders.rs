use marketplace_core::calendar::{
    calculate_month_ranges, consider_previous_day, current_and_previous_month, current_month_bounds,
    dashboard_date, get_month_range, is_before, month_range_text, this_month_bounds, CalDate, MonthRange,
};
use marketplace_core::codes::{
    format_code, generate_code, generate_tenant_name_hash, random_code_suffix, tenant_hash_from_bytes, CodeType,
};
use marketplace_core::credentials::{
    change_password, check_login, hash_new_password, login_decision, password_change_decision, PasswordOwner,
};
use marketplace_core::decimal::Amount;
use marketplace_core::error::AppError;
use marketplace_core::inspection::{
    accepted_totals_map, aggregate_inspection, evidence_json, market_quantities, need_to_inspect_qty, result_or_pending, AcceptedTotal,
    InspectionOutcome, ReceiptOperationType,
};
use marketplace_core::menu::{build_menu_tree, MenuRow};
use marketplace_core::order::{
    action_after_inspection, after_sales_action, cancel_action, check_assignable, check_assignment_applied,
    check_delivery_staff_found, check_exchange_items_present, check_exchange_lines_updated,
    check_status_update_applied, deliver_to_customer_action, deliver_to_market_action, exchange_delivery_action,
    inspection_action, new_order_message, next_delivery_round, next_inspection_round, preparing_delivery,
    preparing_plan, provider_round_source, return_action, OrderAction, OrderStatus, PreparingPlan,
    ProviderRoundSource,
};
use marketplace_core::pricing::{
    discount_rate_or_default, exchange_plan, price_order, refund_amount, settle_accepted_details, sum_amounts,
    AcceptedDetail, OrderLine,
};
use marketplace_core::tenant::TenantType;
use marketplace_core::trends::{orders_trend, return_rate_trend_text, spending_trend, TrendText};

fn d(year: i32, month: u32, day: u32) -> CalDate {
    CalDate { year, month, day }
}

fn amt(mantissa: i64, scale: u32) -> Amount {
    Amount::new(mantissa, scale)
}

#[test]
fn decimal_arithmetic_matches_rust_decimal() {
    assert_eq!(amt(150, 2).add(amt(225, 2)), Amount { mantissa: 375, scale: 2 });
    assert_eq!(amt(15, 1).add(amt(225, 2)), Amount { mantissa: 375, scale: 2 });
    assert_eq!(amt(0, 0).add(amt(150, 2)), Amount { mantissa: 150, scale: 2 });
    assert_eq!(amt(150, 2).sub(amt(200, 2)), Amount { mantissa: -50, scale: 2 });
    assert_eq!(amt(150, 2).mul(amt(3, 0)), Amount { mantissa: 450, scale: 2 });
    assert_eq!(amt(125, 2).mul(amt(8, 1)), Amount { mantissa: 1000, scale: 3 });
    assert_eq!(amt(0, 2).mul(amt(8, 1)), Amount { mantissa: 0, scale: 0 });
    assert!(amt(0, 3).is_non_negative());
    assert!(!amt(-1, 3).is_non_negative());
}

#[test]
fn pricing_an_order() {
    let lines = vec![
        OrderLine { unit_price: amt(1250, 2), discount_rate: amt(90, 2), ordered_qty: amt(2, 0) },
        OrderLine { unit_price: amt(300, 2), discount_rate: amt(100, 2), ordered_qty: amt(15, 1) },
    ];
    let priced = price_order(&lines).unwrap();
    assert_eq!(priced.lines.len(), 2);
    assert_eq!(priced.lines[0].ordered_amount, Amount { mantissa: 2500, scale: 2 });
    assert_eq!(priced.lines[0].discounted_unit_price, Amount { mantissa: 112500, scale: 4 });
    assert_eq!(priced.lines[1].ordered_amount, Amount { mantissa: 4500, scale: 3 });
    assert_eq!(priced.ordered_amount, Amount { mantissa: 29500, scale: 3 });
    assert_eq!(price_order(&vec![]), Err(AppError::BadRequest("订单不能为空".to_string())));
}

#[test]
fn order_amount_is_the_sum_of_line_values() {
    let lines = vec![
        OrderLine { unit_price: amt(199, 2), discount_rate: amt(1, 0), ordered_qty: amt(3, 0) },
        OrderLine { unit_price: amt(5, 0), discount_rate: amt(1, 0), ordered_qty: amt(25, 2) },
        OrderLine { unit_price: amt(1, 1), discount_rate: amt(1, 0), ordered_qty: amt(7, 0) },
    ];
    let priced = price_order(&lines).unwrap();
    // 1.99 * 3 + 5 * 0.25 + 0.1 * 7 = 5.97 + 1.25 + 0.7 = 7.92
    let total = priced.ordered_amount;
    assert_eq!(total.mantissa * 100 / 10i128.pow(total.scale), 792);
}

#[test]
fn discount_rate_default_is_one() {
    assert_eq!(discount_rate_or_default(None), Amount { mantissa: 100, scale: 2 });
    assert_eq!(discount_rate_or_default(Some(amt(85, 2))), amt(85, 2));
}

#[test]
fn summing_amounts() {
    assert_eq!(sum_amounts(&vec![]), Amount { mantissa: 0, scale: 0 });
    assert_eq!(sum_amounts(&vec![amt(1, 1), amt(2, 2), amt(3, 0)]), Amount { mantissa: 312, scale: 2 });
}

#[test]
fn settling_accepted_lines() {
    let details = vec![
        AcceptedDetail { order_detail_id: 7, inspected_qty: Some(amt(2, 0)), discounted_unit_price: amt(1125, 2) },
        AcceptedDetail { order_detail_id: 9, inspected_qty: None, discounted_unit_price: amt(300, 2) },
    ];
    let s = settle_accepted_details(&details).unwrap();
    assert_eq!(s.details.len(), 2);
    assert_eq!(s.details[0].order_detail_id, 7);
    assert_eq!(s.details[0].net_amount, Amount { mantissa: 2250, scale: 2 });
    assert_eq!(s.details[0].accepted_qty, amt(2, 0));
    assert_eq!(s.details[1].accepted_qty, Amount { mantissa: 0, scale: 0 });
    assert_eq!(s.details[1].net_amount, Amount { mantissa: 0, scale: 0 });
    assert_eq!(s.order_net_amount, Amount { mantissa: 2250, scale: 2 });
    assert_eq!(
        settle_accepted_details(&vec![]),
        Err(AppError::Internal("No order details found for inspection".to_string()))
    );
}

#[test]
fn refunds_and_exchanges() {
    assert_eq!(refund_amount(amt(3, 0), amt(450, 2)), Amount { mantissa: 1350, scale: 2 });
    let plan = exchange_plan(amt(10, 0), amt(75, 1), amt(200, 2)).unwrap();
    assert_eq!(plan.quantity, Amount { mantissa: 25, scale: 1 });
    assert_eq!(plan.total_amount, Amount { mantissa: 5000, scale: 3 });
    assert_eq!(exchange_plan(amt(5, 0), amt(6, 0), amt(1, 0)), None);
    assert_eq!(exchange_plan(amt(5, 0), amt(5, 0), amt(1, 0)), None);
    assert_eq!(exchange_plan(amt(50, 1), amt(5, 0), amt(1, 0)), None);
}

#[test]
fn inspection_outcomes() {
    let texts = |v: &[&str]| v.iter().map(|s| s.to_string()).collect::<Vec<String>>();
    assert_eq!(aggregate_inspection(&texts(&["SIGN", "SIGN"])), InspectionOutcome::Pass);
    assert_eq!(aggregate_inspection(&texts(&["SIGN", "RETURN"])), InspectionOutcome::Partial);
    assert_eq!(aggregate_inspection(&texts(&["SIGN", "EXCHANGE", "RETURN"])), InspectionOutcome::Exchange);
    assert_eq!(aggregate_inspection(&texts(&["RETURN", "RETURN"])), InspectionOutcome::Rejected);
    assert_eq!(aggregate_inspection(&texts(&["SIGN", "PENDING", "EXCHANGE"])), InspectionOutcome::Pending);
    assert_eq!(aggregate_inspection(&texts(&[])), InspectionOutcome::Rejected);
    assert_eq!(InspectionOutcome::Partial.to_str(), "PARTIAL");
    assert_eq!(ReceiptOperationType::Exchange.to_str(), "EXCHANGE");
    assert!(ReceiptOperationType::Sign.is_accepted());
    assert!(ReceiptOperationType::Exchange.is_accepted());
    assert!(!ReceiptOperationType::Return.is_accepted());
}

#[test]
fn customer_view_of_market_inspection() {
    let q = Some(amt(4, 0));
    assert_eq!(market_quantities(Some("EXCHANGE"), q), (q, None));
    assert_eq!(market_quantities(Some("RETURN"), q), (None, q));
    assert_eq!(market_quantities(Some("SIGN"), q), (None, None));
    assert_eq!(market_quantities(None, q), (None, None));
    assert_eq!(result_or_pending(None), "PENDING");
    assert_eq!(result_or_pending(Some("PASS".to_string())), "PASS");
    let totals = vec![
        AcceptedTotal { order_detail_id: 1, total_inspected_qty: Some(amt(3, 0)) },
        AcceptedTotal { order_detail_id: 2, total_inspected_qty: None },
        AcceptedTotal { order_detail_id: 4, total_inspected_qty: Some(amt(1, 0)) },
        AcceptedTotal { order_detail_id: 4, total_inspected_qty: Some(amt(25, 1)) },
    ];
    let map = accepted_totals_map(&totals);
    assert_eq!(map.len(), 3);
    assert_eq!(need_to_inspect_qty(&map, 1), Some(amt(3, 0)));
    assert_eq!(need_to_inspect_qty(&map, 2), Some(Amount { mantissa: 0, scale: 0 }));
    assert_eq!(need_to_inspect_qty(&map, 4), Some(amt(25, 1)));
    assert_eq!(need_to_inspect_qty(&map, 3), None);
}

#[test]
fn status_texts_round_trip() {
    let all = [
        OrderStatus::Pending,
        OrderStatus::Assigned,
        OrderStatus::SupplierPreparing,
        OrderStatus::SupplierDelivering,
        OrderStatus::MarketDelivering,
        OrderStatus::ExchangeRequested,
        OrderStatus::ExchangeInProgress,
        OrderStatus::ExchangeDelivering,
        OrderStatus::ExchangeNewDelivering,
        OrderStatus::Accepted,
        OrderStatus::AfterSale,
        OrderStatus::Completed,
    ];
    for s in all {
        assert_eq!(OrderStatus::parse(s.to_str()), Some(s));
    }
    assert_eq!(OrderStatus::SupplierDelivering.to_str(), "SUPPLIER_DELIVERING");
    assert_eq!(OrderStatus::parse("shipped"), None);
    for t in [TenantType::Provider, TenantType::Market, TenantType::Customer] {
        assert_eq!(TenantType::parse(t.as_str()), Some(t));
    }
    assert_eq!(TenantType::from_claim("ADMIN"), Err(AppError::Validation("无效的租户类型".to_string())));
}

#[test]
fn preparing_an_order() {
    assert_eq!(
        preparing_plan(Some(OrderStatus::Assigned), "ODR-1", Some("110101199001011234")),
        Ok(PreparingPlan::FirstDelivery { id_card: "110101199001011234".to_string() })
    );
    assert_eq!(
        preparing_plan(Some(OrderStatus::Assigned), "ODR-1", None),
        Err(AppError::Validation("配送员 ID 不能为空".to_string()))
    );
    assert_eq!(preparing_plan(Some(OrderStatus::ExchangeRequested), "ODR-1", None), Ok(PreparingPlan::ExchangeRedelivery));
    assert_eq!(
        preparing_plan(Some(OrderStatus::Pending), "ODR-1", Some("x")),
        Err(AppError::Validation("订单 ODR-1 状态错误，不能进行备货".to_string()))
    );
    assert_eq!(
        preparing_plan(None, "ODR-1", Some("x")),
        Err(AppError::NotFound("订单 ODR-1 没有找到，不能备货".to_string()))
    );
    assert_eq!(
        check_delivery_staff_found(0, "110"),
        Err(AppError::NotFound("配送员 110 没有找到".to_string()))
    );
    assert_eq!(check_delivery_staff_found(1, "110"), Ok(()));
}

#[test]
fn delivering_to_the_market() {
    assert_eq!(deliver_to_market_action(OrderStatus::SupplierPreparing, "C"), Ok(OrderAction::DeliverToMarket));
    assert_eq!(deliver_to_market_action(OrderStatus::ExchangeInProgress, "C"), Ok(OrderAction::DeliverToMarket));
    assert_eq!(
        deliver_to_market_action(OrderStatus::Assigned, "C"),
        Err(AppError::Validation("订单 C 状态错误，不能配送到市场".to_string()))
    );
    assert_eq!(
        check_exchange_items_present(0, "C"),
        Err(AppError::NotFound("订单 C 没有找到换货商品".to_string()))
    );
    assert_eq!(check_exchange_items_present(2, "C"), Ok(()));
    assert_eq!(preparing_delivery(Some(8), "C"), Ok(8));
    assert_eq!(
        preparing_delivery(None, "C"),
        Err(AppError::NotFound("订单 C 没有找到状态为 PREPARING 的配送记录".to_string()))
    );
    assert_eq!(check_exchange_lines_updated(3, 3, "C"), Ok(()));
    assert_eq!(
        check_exchange_lines_updated(3, 2, "C"),
        Err(AppError::NotFound(
            "订单 C 中部分订单明细未找到，无法更新换货配送明细。期望更新 3 条，实际更新 2 条".to_string()
        ))
    );
}

#[test]
fn starting_inspections() {
    assert_eq!(inspection_action(TenantType::Market, "SUPPLIER_DELIVERING"), Some(OrderAction::MarketInspect));
    assert_eq!(inspection_action(TenantType::Market, "EXCHANGE_DELIVERING"), Some(OrderAction::MarketInspect));
    assert_eq!(inspection_action(TenantType::Market, "MARKET_DELIVERING"), None);
    assert_eq!(inspection_action(TenantType::Customer, "MARKET_DELIVERING"), Some(OrderAction::CustomerInspect));
    assert_eq!(
        inspection_action(TenantType::Customer, "EXCHANGE_NEW_DELIVERING"),
        Some(OrderAction::CustomerInspect)
    );
    assert_eq!(inspection_action(TenantType::Customer, "SUPPLIER_DELIVERING"), None);
}

#[test]
fn who_may_do_what() {
    assert_eq!(cancel_action("MARKET"), Ok((TenantType::Market, OrderAction::Cancel)));
    assert_eq!(cancel_action("CUSTOMER"), Ok((TenantType::Customer, OrderAction::Cancel)));
    assert_eq!(
        cancel_action("PROVIDER"),
        Err(AppError::Forbidden("PROVIDER 不能执行取消操作".to_string()))
    );
    assert_eq!(cancel_action("BANK"), Err(AppError::Validation("无效的租户类型".to_string())));
    assert_eq!(return_action("MARKET"), Ok((TenantType::Market, OrderAction::MarketReturn)));
    assert_eq!(return_action("CUSTOMER"), Ok((TenantType::Customer, OrderAction::CustomerReturn)));
    assert_eq!(after_sales_action("CUSTOMER"), Ok((TenantType::Customer, OrderAction::CustomerExchange)));
    assert!(after_sales_action("PROVIDER").is_err());
    assert_eq!(deliver_to_customer_action("MARKET"), Ok((TenantType::Market, OrderAction::DeliverToCustomer)));
    assert!(deliver_to_customer_action("CUSTOMER").is_err());
    assert_eq!(exchange_delivery_action("PROVIDER"), Ok((TenantType::Provider, OrderAction::DeliverToMarket)));
    assert_eq!(
        exchange_delivery_action("MARKET"),
        Err(AppError::Forbidden("MARKET 不能执行换货操作".to_string()))
    );
}

#[test]
fn actions_after_inspection() {
    assert_eq!(action_after_inspection("EXCHANGE", TenantType::Market), OrderAction::MarketExchange);
    assert_eq!(action_after_inspection("EXCHANGE", TenantType::Customer), OrderAction::CustomerExchange);
    assert_eq!(action_after_inspection("PASS", TenantType::Market), OrderAction::MarketAccept);
    assert_eq!(action_after_inspection("PARTIAL", TenantType::Customer), OrderAction::Complete);
    assert_eq!(action_after_inspection("REJECTED", TenantType::Market), OrderAction::Cancel);
}

#[test]
fn assigning_orders() {
    assert_eq!(check_assignable(d(2024, 5, 1), d(2024, 5, 1), "C"), Ok(()));
    assert_eq!(
        check_assignable(d(2024, 4, 30), d(2024, 5, 1), "C"),
        Err(AppError::Validation("不能指派已过期订单 C".to_string()))
    );
    assert_eq!(
        check_assignment_applied(0, "C"),
        Err(AppError::Validation("订单 C 状态已更新或被取消".to_string()))
    );
    assert_eq!(check_assignment_applied(1, "C"), Ok(()));
    assert_eq!(
        check_status_update_applied(0, "C"),
        Err(AppError::Conflict("订单 C 状态已变更，请刷新后重试".to_string()))
    );
    assert_eq!(new_order_message("ODR-9"), "您有新的订单 ODR-9 需要处理");
}

#[test]
fn delivery_and_inspection_rounds() {
    assert_eq!(provider_round_source(OrderStatus::Assigned), (ProviderRoundSource::OrderDetails, "NORMAL"));
    assert_eq!(
        provider_round_source(OrderStatus::ExchangeInProgress),
        (ProviderRoundSource::ExchangeRecords, "EXCHANGE")
    );
    assert_eq!(provider_round_source(OrderStatus::Completed), (ProviderRoundSource::Nothing, "NORMAL"));
    assert_eq!(next_delivery_round(1), 2);
    assert_eq!(next_inspection_round(None), (None, 1));
    assert_eq!(next_inspection_round(Some((17, 2))), (Some(17), 3));
}

#[test]
fn month_ranges() {
    let (cur, prev) = calculate_month_ranges(d(2024, 3, 15)).unwrap();
    assert_eq!(cur, MonthRange { start: d(2024, 3, 1), end: d(2024, 3, 31) });
    assert_eq!(prev, MonthRange { start: d(2024, 2, 1), end: d(2024, 2, 29) });
    let (cur, prev) = calculate_month_ranges(d(2023, 1, 10)).unwrap();
    assert_eq!(cur, MonthRange { start: d(2023, 1, 1), end: d(2023, 1, 31) });
    assert_eq!(prev, MonthRange { start: d(2022, 12, 1), end: d(2022, 12, 31) });
    assert_eq!(
        calculate_month_ranges(d(262142, 12, 5)),
        Err(AppError::Internal("Failed to calculate current month end".to_string()))
    );
    assert_eq!(current_month_bounds(d(2023, 2, 10)), Ok(MonthRange { start: d(2023, 2, 1), end: d(2023, 2, 28) }));
    assert_eq!(current_month_bounds(d(2023, 12, 31)), Ok(MonthRange { start: d(2023, 12, 1), end: d(2023, 12, 31) }));
    assert!(current_and_previous_month().is_ok());
    let this = this_month_bounds().unwrap();
    assert_eq!(this.start.day, 1);
    assert_eq!(this.start.month, this.end.month);
}

#[test]
fn month_range_texts() {
    assert_eq!(month_range_text(d(2024, 2, 10)), ("2024-02-01".to_string(), "2024-02-29".to_string()));
    assert_eq!(
        get_month_range("2023-12-25"),
        Some(("2023-12-01".to_string(), "2023-12-31".to_string()))
    );
    let fallback = get_month_range("not a date").unwrap();
    assert!(fallback.0.ends_with("-01"));
    assert_eq!(fallback.0.len(), 10);
}

#[test]
fn dates_and_dashboards() {
    assert!(is_before(d(2023, 12, 31), d(2024, 1, 1)));
    assert!(!is_before(d(2024, 1, 1), d(2024, 1, 1)));
    assert_eq!(dashboard_date(None), Ok(None));
    assert_eq!(dashboard_date(Some("2024-05-06")), Ok(Some(d(2024, 5, 6))));
    assert_eq!(
        dashboard_date(Some("2024-13-01")),
        Err(AppError::Validation("Invalid date format. Use YYYY-MM-DD".to_string()))
    );
    assert!(consider_previous_day(11, false));
    assert!(!consider_previous_day(12, false));
    assert!(!consider_previous_day(9, true));
}

#[test]
fn codes_and_hashes() {
    assert_eq!(format_code(CodeType::Order, "20240101120000123", "ABCD"), "ODR-20240101120000123-ABCD");
    assert_eq!(
        format_code(CodeType::ReconciliationStatement, "20240101120000123", "WXYZ"),
        "RS-20240101120000123-WXYZ"
    );
    let suffix = random_code_suffix();
    assert_eq!(suffix.len(), 4);
    assert!(suffix.chars().all(|c| c.is_ascii_uppercase()));
    let code = generate_code(CodeType::Order);
    let parts: Vec<&str> = code.split('-').collect();
    assert_eq!(parts.len(), 3);
    assert_eq!(parts[1].len(), 17);
    assert_eq!(code.len(), 26);
    assert_eq!(generate_code(CodeType::ReconciliationStatement).len(), 25);
    assert!(parts[1].chars().all(|c| c.is_ascii_digit()));
    assert!(parts[2].chars().all(|c| c.is_ascii_uppercase()));
    let bytes: Vec<u8> = vec![0, 1, 31, 32, 33, 10, 11, 255, 7, 7];
    assert_eq!(tenant_hash_from_bytes(&bytes), "ab9abkm9");
    let h = generate_tenant_name_hash("鲜果店").unwrap();
    assert_eq!(h.chars().count(), 8);
    assert!(h.chars().all(|c| "abcdefghijkmnpqrstuvwxyz23456789".contains(c)));
    assert_eq!(
        generate_tenant_name_hash(""),
        Err(AppError::Validation("Tenant name cannot be empty".to_string()))
    );
}

#[test]
fn login_decisions() {
    let user = PasswordOwner::User;
    let admin = PasswordOwner::SuperAdmin;
    assert_eq!(login_decision(user, false, None), Err(AppError::NotFound("Invalid username or password".to_string())));
    assert_eq!(login_decision(admin, false, None), Err(AppError::Auth("Invalid username or password".to_string())));
    assert_eq!(
        login_decision(user, true, Some(false)),
        Err(AppError::Auth("Invalid username or password".to_string()))
    );
    assert_eq!(
        login_decision(admin, true, Some(false)),
        Err(AppError::Auth("Invalid username or password".to_string()))
    );
    assert_eq!(login_decision(user, true, None), Err(AppError::Internal("Password verification failed".to_string())));
    assert_eq!(login_decision(user, true, Some(true)), Ok(()));
    assert_eq!(
        password_change_decision(PasswordOwner::User, false, None, None),
        Err(AppError::NotFound("User not found".to_string()))
    );
    assert_eq!(
        password_change_decision(PasswordOwner::SuperAdmin, true, Some(true), None),
        Err(AppError::Internal("Password hashing failed".to_string()))
    );
    assert_eq!(
        password_change_decision(PasswordOwner::User, true, Some(false), Some("h".to_string())),
        Err(AppError::Auth("Invalid current password".to_string()))
    );
    assert_eq!(
        password_change_decision(PasswordOwner::User, true, Some(true), Some("h".to_string())),
        Ok("h".to_string())
    );
}

#[test]
fn passwords_with_bcrypt() {
    let stored = hash_new_password("s3cret!").unwrap();
    assert_ne!(stored, "s3cret!");
    assert_eq!(stored.len(), 60);
    assert!(stored.starts_with("$2b$"));
    assert_eq!(check_login(PasswordOwner::User, Some(&stored), "s3cret!"), Ok(()));
    assert_eq!(
        check_login(PasswordOwner::User, Some(&stored), "wrong"),
        Err(AppError::Auth("Invalid username or password".to_string()))
    );
    assert_eq!(
        check_login(PasswordOwner::User, None, "s3cret!"),
        Err(AppError::NotFound("Invalid username or password".to_string()))
    );
    assert_eq!(
        check_login(PasswordOwner::SuperAdmin, None, "s3cret!"),
        Err(AppError::Auth("Invalid username or password".to_string()))
    );
    assert_eq!(
        check_login(PasswordOwner::User, Some("not-a-hash"), "s3cret!"),
        Err(AppError::Internal("Password verification failed".to_string()))
    );
    let renewed = change_password(PasswordOwner::User, Some(&stored), "s3cret!", "n3w-pass").unwrap();
    assert_eq!(check_login(PasswordOwner::User, Some(&renewed), "n3w-pass"), Ok(()));
    assert!(check_login(PasswordOwner::SuperAdmin, Some(&renewed), "s3cret!").is_err());
    assert_eq!(
        change_password(PasswordOwner::User, Some(&stored), "bad", "x"),
        Err(AppError::Auth("Invalid current password".to_string()))
    );
    assert_eq!(
        change_password(PasswordOwner::SuperAdmin, None, "a", "b"),
        Err(AppError::Auth("Invalid username or password".to_string()))
    );
}

fn row(id: i32, title: &str, parent_id: Option<i32>, is_active: Option<i8>) -> MenuRow {
    MenuRow {
        id,
        title: title.to_string(),
        url: Some(format!("/{}", title)),
        icon: None,
        is_active,
        parent_id,
        sort_order: Some(id),
    }
}

#[test]
fn menu_trees() {
    let rows = vec![
        row(1, "home", None, Some(1)),
        row(2, "orders", Some(1), Some(1)),
        row(3, "prices", None, Some(0)),
        row(4, "orphan", Some(99), Some(1)),
        row(5, "history", Some(1), None),
        row(1, "start", None, Some(1)),
    ];
    let mut menus = build_menu_tree(&rows);
    menus.sort_by_key(|m| m.id);
    assert_eq!(menus.len(), 2);
    assert_eq!(menus[0].id, 1);
    assert_eq!(menus[0].title, "start");
    assert!(menus[0].is_active);
    let items = menus[0].items.as_ref().unwrap();
    assert_eq!(items.len(), 2);
    assert_eq!(items[0].id, 2);
    assert_eq!(items[0].url, Some("/orders".to_string()));
    assert!(items[0].is_active);
    assert_eq!(items[1].id, 5);
    assert!(!items[1].is_active);
    assert!(items[1].items.is_none());
    assert_eq!(menus[1].id, 3);
    assert!(!menus[1].is_active);
    assert!(menus[1].items.is_none());
    assert!(build_menu_tree(&vec![]).is_empty());
}

#[test]
fn inspection_outcome_drives_the_next_action() {
    let texts = |v: &[&str]| v.iter().map(|s| s.to_string()).collect::<Vec<String>>();
    let signed = aggregate_inspection(&texts(&["SIGN", "SIGN", "SIGN"]));
    assert_eq!(action_after_inspection(signed.to_str(), TenantType::Market), OrderAction::MarketAccept);
    assert_eq!(action_after_inspection(signed.to_str(), TenantType::Customer), OrderAction::Complete);
    let exchanged = aggregate_inspection(&texts(&["RETURN", "EXCHANGE"]));
    assert_eq!(action_after_inspection(exchanged.to_str(), TenantType::Market), OrderAction::MarketExchange);
    assert_eq!(action_after_inspection(exchanged.to_str(), TenantType::Customer), OrderAction::CustomerExchange);
    let partial = aggregate_inspection(&texts(&["RETURN", "SIGN"]));
    assert_eq!(action_after_inspection(partial.to_str(), TenantType::Customer), OrderAction::Complete);
    let rejected = aggregate_inspection(&texts(&["RETURN"]));
    assert_eq!(action_after_inspection(rejected.to_str(), TenantType::Market), OrderAction::Cancel);
}

#[test]
fn evidence_is_stored_as_json() {
    assert_eq!(evidence_json(None), Ok(None));
    assert_eq!(evidence_json(Some(&vec![])), Ok(None));
    let images = vec!["a.png".to_string(), "say \"hi\"".to_string()];
    assert_eq!(evidence_json(Some(&images)), Ok(Some("[\"a.png\",\"say \\\"hi\\\"\"]".to_string())));
    let controls = vec!["a\u{1}\n\\/é".to_string()];
    assert_eq!(evidence_json(Some(&controls)), Ok(Some("[\"a\\u0001\\n\\\\/é\"]".to_string())));
}

#[test]
fn dashboard_trends() {
    assert_eq!(orders_trend(5, 4), (TrendText::Change, true));
    assert_eq!(orders_trend(3, 4), (TrendText::Change, false));
    assert_eq!(orders_trend(2, 0), (TrendText::FromNothing, true));
    assert_eq!(orders_trend(0, 0), (TrendText::Flat, true));
    assert_eq!(spending_trend(amt(1000, 2), amt(10, 0)), (TrendText::Change, true));
    assert_eq!(spending_trend(amt(999, 2), amt(10, 0)), (TrendText::Change, false));
    assert_eq!(spending_trend(amt(5, 0), amt(0, 2)), (TrendText::FromNothing, true));
    assert_eq!(spending_trend(amt(0, 0), amt(0, 0)), (TrendText::Flat, true));
    assert_eq!(return_rate_trend_text(1, 10, 2, 10), TrendText::Change);
    assert_eq!(return_rate_trend_text(1, 10, 0, 10), TrendText::FromNothing);
    assert_eq!(return_rate_trend_text(0, 10, 3, 0), TrendText::Flat);
    assert_eq!(TrendText::FromNothing.fixed_text(), Some("+100%"));
    assert_eq!(TrendText::Flat.fixed_text(), Some("0%"));
    assert_eq!(TrendText::Change.fixed_text(), None);
}
