use marketplace_core::error::AppError;
use marketplace_core::order::OrderStatus;
use marketplace_core::ordering::{ordering_step, OrderingAction, OrderingEvent, OrderingState};
use marketplace_core::preparing::{preparing_step, PreparingAction, PreparingEvent, PreparingState};

fn run_preparing(
    order_code: &str,
    id_card: Option<&str>,
    events: Vec<PreparingEvent>,
) -> (Vec<PreparingAction>, PreparingState) {
    let mut state = PreparingState::Start;
    let mut actions = Vec::new();
    for event in events {
        let (next, action) = preparing_step(state, event, order_code, id_card);
        state = next;
        actions.push(action);
    }
    (actions, state)
}

fn names(actions: &[PreparingAction]) -> Vec<String> {
    actions
        .iter()
        .map(|a| match a {
            PreparingAction::FetchOrder => "fetch_order".to_string(),
            PreparingAction::StoreFirstDelivery { id_card } => format!("store_first_delivery:{}", id_card),
            PreparingAction::StoreFirstItems => "store_first_items".to_string(),
            PreparingAction::FetchLastDelivery => "fetch_last_delivery".to_string(),
            PreparingAction::StoreNextDelivery { round } => format!("store_next_delivery:{}", round),
            PreparingAction::StoreExchangeItems => "store_exchange_items".to_string(),
            PreparingAction::MarkReturnsReturned => "mark_returns".to_string(),
            PreparingAction::UpdateStatus { next } => format!("update_status:{}", next.to_str()),
            PreparingAction::RecordHistory { next } => format!("record_history:{}", next.to_str()),
            PreparingAction::Commit => "commit".to_string(),
            PreparingAction::RollBack { error } => format!("rollback:{}", error.to_text()),
            PreparingAction::Reply { status } => format!("reply:{}", status.to_str()),
            PreparingAction::Ignore => "ignore".to_string(),
        })
        .collect()
}

#[test]
fn first_delivery_is_prepared_in_order() {
    let (actions, state) = run_preparing(
        "ODR-1",
        Some("110101199001011234"),
        vec![
            PreparingEvent::Begun,
            PreparingEvent::OrderFetched(Some((7, OrderStatus::Assigned))),
            PreparingEvent::FirstDeliveryStored(1),
            PreparingEvent::Written,
            PreparingEvent::StatusUpdated(1),
            PreparingEvent::Written,
            PreparingEvent::Written,
        ],
    );
    assert_eq!(
        names(&actions),
        vec![
            "fetch_order",
            "store_first_delivery:110101199001011234",
            "store_first_items",
            "update_status:SUPPLIER_PREPARING",
            "record_history:SUPPLIER_PREPARING",
            "commit",
            "reply:SUPPLIER_PREPARING",
        ]
    );
    assert!(matches!(state, PreparingState::Finished));
}

#[test]
fn exchange_round_is_prepared_in_order() {
    let (actions, _) = run_preparing(
        "ODR-2",
        None,
        vec![
            PreparingEvent::Begun,
            PreparingEvent::OrderFetched(Some((9, OrderStatus::ExchangeRequested))),
            PreparingEvent::LastDeliveryFetched(Some(2)),
            PreparingEvent::Written,
            PreparingEvent::Written,
            PreparingEvent::Written,
            PreparingEvent::StatusUpdated(1),
            PreparingEvent::Written,
            PreparingEvent::Written,
        ],
    );
    assert_eq!(
        names(&actions),
        vec![
            "fetch_order",
            "fetch_last_delivery",
            "store_next_delivery:3",
            "store_exchange_items",
            "mark_returns",
            "update_status:EXCHANGE_IN_PROGRESS",
            "record_history:EXCHANGE_IN_PROGRESS",
            "commit",
            "reply:EXCHANGE_IN_PROGRESS",
        ]
    );
}

#[test]
fn refusals_roll_back_and_end_the_preparation() {
    let (actions, state) = run_preparing(
        "ODR-3",
        Some("x"),
        vec![PreparingEvent::Begun, PreparingEvent::OrderFetched(None), PreparingEvent::Written],
    );
    assert_eq!(names(&actions), vec!["fetch_order", "rollback:Not found: 订单 ODR-3 没有找到，不能备货", "ignore"]);
    assert!(matches!(state, PreparingState::Finished));
    let (actions, _) = run_preparing(
        "ODR-3",
        None,
        vec![PreparingEvent::Begun, PreparingEvent::OrderFetched(Some((1, OrderStatus::Assigned)))],
    );
    assert_eq!(names(&actions)[1], "rollback:Validation error: 配送员 ID 不能为空");
    let (actions, _) = run_preparing(
        "ODR-3",
        None,
        vec![PreparingEvent::Begun, PreparingEvent::OrderFetched(Some((1, OrderStatus::Completed)))],
    );
    assert_eq!(names(&actions)[1], "rollback:Validation error: 订单 ODR-3 状态错误，不能进行备货");
    let (actions, _) = run_preparing(
        "ODR-3",
        Some("42"),
        vec![
            PreparingEvent::Begun,
            PreparingEvent::OrderFetched(Some((1, OrderStatus::Assigned))),
            PreparingEvent::FirstDeliveryStored(0),
        ],
    );
    assert_eq!(names(&actions)[2], "rollback:Not found: 配送员 42 没有找到");
    let (actions, _) = run_preparing(
        "ODR-3",
        None,
        vec![
            PreparingEvent::Begun,
            PreparingEvent::OrderFetched(Some((15, OrderStatus::ExchangeRequested))),
            PreparingEvent::LastDeliveryFetched(None),
        ],
    );
    assert_eq!(names(&actions)[2], "rollback:Not found: Provider delivery not found for assignment id 15");
    let (actions, _) = run_preparing(
        "ODR-3",
        Some("42"),
        vec![
            PreparingEvent::Begun,
            PreparingEvent::OrderFetched(Some((1, OrderStatus::Assigned))),
            PreparingEvent::FirstDeliveryStored(1),
            PreparingEvent::Written,
            PreparingEvent::StatusUpdated(0),
            PreparingEvent::Written,
        ],
    );
    assert_eq!(
        names(&actions)[4..].to_vec(),
        vec!["rollback:Conflict: 订单 ODR-3 状态已变更，请刷新后重试".to_string(), "ignore".to_string()]
    );
    let (actions, _) = run_preparing(
        "ODR-3",
        None,
        vec![PreparingEvent::Begun, PreparingEvent::Failed(AppError::Database("lost".to_string()))],
    );
    assert_eq!(names(&actions)[1], "rollback:Database error: lost");
    let (actions, state) = run_preparing("ODR-3", None, vec![PreparingEvent::Written]);
    assert_eq!(names(&actions), vec!["ignore"]);
    assert!(matches!(state, PreparingState::Start));
}

fn run_ordering(events: Vec<OrderingEvent>) -> Vec<String> {
    let mut state = OrderingState::Start;
    let mut out = Vec::new();
    for event in events {
        let (next, action) = ordering_step(state, event);
        state = next;
        out.push(match action {
            OrderingAction::FetchCustomer => "fetch_customer".to_string(),
            OrderingAction::PriceLines => "price_lines".to_string(),
            OrderingAction::StoreOrder => "store_order".to_string(),
            OrderingAction::StoreDetails => "store_details".to_string(),
            OrderingAction::RecordHistory => "record_history".to_string(),
            OrderingAction::Commit => "commit".to_string(),
            OrderingAction::Stop { error } => format!("stop:{}", error.to_text()),
            OrderingAction::Reply => "reply".to_string(),
            OrderingAction::Ignore => "ignore".to_string(),
        });
    }
    out
}

#[test]
fn placing_an_order() {
    assert_eq!(
        run_ordering(vec![
            OrderingEvent::Submitted(2),
            OrderingEvent::CustomerFetched(true),
            OrderingEvent::LinesPriced,
            OrderingEvent::Written,
            OrderingEvent::Written,
            OrderingEvent::Written,
            OrderingEvent::Written,
        ]),
        vec!["fetch_customer", "price_lines", "store_order", "store_details", "record_history", "commit", "reply"]
    );
    assert_eq!(
        run_ordering(vec![OrderingEvent::Submitted(0), OrderingEvent::CustomerFetched(true)]),
        vec!["stop:Bad request: 订单不能为空", "ignore"]
    );
    assert_eq!(
        run_ordering(vec![OrderingEvent::Submitted(1), OrderingEvent::CustomerFetched(false)]),
        vec!["fetch_customer", "stop:Not found: Customer not found"]
    );
    assert_eq!(
        run_ordering(vec![
            OrderingEvent::Submitted(1),
            OrderingEvent::CustomerFetched(true),
            OrderingEvent::Failed(AppError::NotFound("Product not found: P1".to_string())),
        ]),
        vec!["fetch_customer", "price_lines", "stop:Not found: Product not found: P1"]
    );
}
