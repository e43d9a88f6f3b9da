use vstd::prelude::*;
use crate::error::AppError;
use crate::text::{join2, signed_decimal, signed_decimal_text};
use crate::order::{
    OrderStatus, PreparingPlan, check_delivery_staff_found, check_status_update_applied, order_message,
    preparing_plan, preparing_plan_outcome,
};

verus! {

/// Where a provider's preparation of an order stands, between two pieces of
/// storage work.
#[derive(Clone, Debug)]
pub enum PreparingState {
    /// Nothing done yet.
    Start,
    /// The provider's order is being looked up.
    AwaitOrder,
    /// The first delivery, by the staff member with this ID card, is being stored.
    AwaitFirstDelivery { id_card: String },
    /// The lines of the first delivery are being stored.
    AwaitFirstItems,
    /// The last delivery round of the exchanged order `order_id` is being looked up.
    AwaitLastDelivery { order_id: i32 },
    /// The next delivery round is being stored.
    AwaitNextDelivery,
    /// The exchanged lines of the new round are being stored.
    AwaitExchangeItems,
    /// The returned lines are being marked as returned.
    AwaitReturnsMarked { next: OrderStatus },
    /// The order's status is being moved to `next`.
    AwaitStatusUpdate { next: OrderStatus },
    /// The move to `next` is being recorded in the order's history.
    AwaitHistory { next: OrderStatus },
    /// The transaction is being committed.
    AwaitCommit { next: OrderStatus },
    /// The preparation is answered; nothing more happens.
    Finished,
}

/// What the storage reports back.
#[derive(Clone, Debug)]
pub enum PreparingEvent {
    /// The transaction is open.
    Begun,
    /// The id and status of the provider's order, if it has one with that code.
    OrderFetched(Option<(i32, OrderStatus)>),
    /// How many first-delivery rows were stored for an active staff member.
    FirstDeliveryStored(u64),
    /// The last delivery round of the order, if there is one.
    LastDeliveryFetched(Option<i32>),
    /// The requested rows were written.
    Written,
    /// How many order rows changed status.
    StatusUpdated(u64),
    /// The storage failed with this error.
    Failed(AppError),
}

/// What is to be done next.
#[derive(Clone, Debug)]
pub enum PreparingAction {
    FetchOrder,
    StoreFirstDelivery { id_card: String },
    StoreFirstItems,
    FetchLastDelivery,
    StoreNextDelivery { round: i32 },
    StoreExchangeItems,
    MarkReturnsReturned,
    UpdateStatus { next: OrderStatus },
    RecordHistory { next: OrderStatus },
    Commit,
    /// Roll the transaction back and answer with the error: nothing is kept.
    RollBack { error: AppError },
    /// Answer with the order's new status.
    Reply { status: OrderStatus },
    /// The event does not belong here; nothing is done.
    Ignore,
}

/// The status of an order that was found.
pub open spec fn found_status(found: Option<(i32, OrderStatus)>) -> Option<OrderStatus> {
    match found {
        Some((_, status)) => Some(status),
        None => None,
    }
}

/// Whether the step from `s` on event `e` goes to `t` with action `a`, for the
/// order `order_code` and the staff member `id_card` named in the request.
pub open spec fn preparing_step_spec(
    s: PreparingState,
    e: PreparingEvent,
    order_code: Seq<char>,
    id_card: Option<Seq<char>>,
    t: PreparingState,
    a: PreparingAction,
) -> bool {
    if s is Finished {
        t is Finished && a is Ignore
    } else if e is Failed {
        t is Finished && a == (PreparingAction::RollBack { error: e->0 })
    } else {
        match (s, e) {
            (PreparingState::Start, PreparingEvent::Begun) => t is AwaitOrder && a is FetchOrder,
            (PreparingState::AwaitOrder, PreparingEvent::OrderFetched(found)) => exists|plan: Result<
                PreparingPlan,
                AppError,
            >|
                #[trigger] preparing_plan_outcome(found_status(found), order_code, id_card, plan) && match plan {
                    Err(err) => t is Finished && a == (PreparingAction::RollBack { error: err }),
                    Ok(PreparingPlan::FirstDelivery { id_card: c }) => (t matches PreparingState::AwaitFirstDelivery {
                        id_card: tc,
                    } && tc@ == c@) && (a matches PreparingAction::StoreFirstDelivery { id_card: ac } && ac@
                        == c@),
                    Ok(PreparingPlan::ExchangeRedelivery) => (found matches Some((id, _)) && t == (
                    PreparingState::AwaitLastDelivery { order_id: id })) && a is FetchLastDelivery,
                },
            (PreparingState::AwaitFirstDelivery { id_card: c }, PreparingEvent::FirstDeliveryStored(rows)) => if rows
                == 0 {
                t is Finished && (a matches PreparingAction::RollBack { error: AppError::NotFound(m) } && m@
                    == "配送员 "@ + c@ + " 没有找到"@)
            } else {
                t is AwaitFirstItems && a is StoreFirstItems
            },
            (PreparingState::AwaitFirstItems, PreparingEvent::Written) => t == (PreparingState::AwaitStatusUpdate {
                next: OrderStatus::SupplierPreparing,
            }) && a == (PreparingAction::UpdateStatus { next: OrderStatus::SupplierPreparing }),
            (PreparingState::AwaitLastDelivery { order_id }, PreparingEvent::LastDeliveryFetched(last)) => match last {
                None => t is Finished && (a matches PreparingAction::RollBack { error: AppError::NotFound(m) } && m@
                    == "Provider delivery not found for assignment id "@ + signed_decimal(order_id as int)),
                Some(round) => t is AwaitNextDelivery && a == (PreparingAction::StoreNextDelivery {
                    round: (round + 1) as i32,
                }),
            },
            (PreparingState::AwaitNextDelivery, PreparingEvent::Written) => t is AwaitExchangeItems
                && a is StoreExchangeItems,
            (PreparingState::AwaitExchangeItems, PreparingEvent::Written) => t == (PreparingState::AwaitReturnsMarked {
                next: OrderStatus::ExchangeInProgress,
            }) && a is MarkReturnsReturned,
            (PreparingState::AwaitReturnsMarked { next }, PreparingEvent::Written) => t == (
            PreparingState::AwaitStatusUpdate { next }) && a == (PreparingAction::UpdateStatus { next }),
            (PreparingState::AwaitStatusUpdate { next }, PreparingEvent::StatusUpdated(rows)) => if rows == 0 {
                t is Finished && (a matches PreparingAction::RollBack { error: AppError::Conflict(m) } && m@
                    == order_message(order_code, " 状态已变更，请刷新后重试"@))
            } else {
                t == (PreparingState::AwaitHistory { next }) && a == (PreparingAction::RecordHistory { next })
            },
            (PreparingState::AwaitHistory { next }, PreparingEvent::Written) => t == (PreparingState::AwaitCommit {
                next,
            }) && a is Commit,
            (PreparingState::AwaitCommit { next }, PreparingEvent::Written) => t is Finished && a == (
            PreparingAction::Reply { status: next }),
            _ => t == s && a is Ignore,
        }
    }
}

/// One step of a provider's preparation of an order: from where it stands
/// and what the storage reported, where it goes and what is to be done.
///
/// The order is looked up first and checked before anything is written
/// (`preparing_plan`); a first delivery then names an active staff member,
/// an exchange starts the round after the last one; the status moves only
/// if no one else moved it, then the move is recorded and committed. Every
/// refusal and every storage failure rolls back.
pub fn preparing_step(
    state: PreparingState,
    event: PreparingEvent,
    order_code: &str,
    id_card: Option<&str>,
) -> (r: (PreparingState, PreparingAction))
    requires
        state is AwaitLastDelivery ==> (event matches PreparingEvent::LastDeliveryFetched(Some(round))
            ==> round < i32::MAX),
    ensures
        preparing_step_spec(
            state,
            event,
            order_code@,
            match id_card {
                Some(c) => Some(c@),
                None => None,
            },
            r.0,
            r.1,
        ),
{
    if let PreparingState::Finished = state {
        return (PreparingState::Finished, PreparingAction::Ignore);
    }
    if let PreparingEvent::Failed(err) = event {
        return (PreparingState::Finished, PreparingAction::RollBack { error: err });
    }
    match (state, event) {
        (PreparingState::Start, PreparingEvent::Begun) => (PreparingState::AwaitOrder, PreparingAction::FetchOrder),
        (PreparingState::AwaitOrder, PreparingEvent::OrderFetched(found)) => {
            let status = match found {
                Some((_, status)) => Some(status),
                None => None,
            };
            let plan = preparing_plan(status, order_code, id_card);
            match plan {
                Err(err) => (PreparingState::Finished, PreparingAction::RollBack { error: err }),
                Ok(PreparingPlan::FirstDelivery { id_card: c }) => {
                    let copy = c.clone();
                    (
                        PreparingState::AwaitFirstDelivery { id_card: c },
                        PreparingAction::StoreFirstDelivery { id_card: copy },
                    )
                },
                Ok(PreparingPlan::ExchangeRedelivery) => {
                    let order_id = match found {
                        Some((id, _)) => id,
                        None => 0,
                    };
                    (PreparingState::AwaitLastDelivery { order_id }, PreparingAction::FetchLastDelivery)
                },
            }
        },
        (PreparingState::AwaitFirstDelivery { id_card: c }, PreparingEvent::FirstDeliveryStored(rows)) => {
            match check_delivery_staff_found(rows, c.as_str()) {
                Err(err) => (PreparingState::Finished, PreparingAction::RollBack { error: err }),
                Ok(()) => (PreparingState::AwaitFirstItems, PreparingAction::StoreFirstItems),
            }
        },
        (PreparingState::AwaitFirstItems, PreparingEvent::Written) => (
            PreparingState::AwaitStatusUpdate { next: OrderStatus::SupplierPreparing },
            PreparingAction::UpdateStatus { next: OrderStatus::SupplierPreparing },
        ),
        (PreparingState::AwaitLastDelivery { order_id }, PreparingEvent::LastDeliveryFetched(last)) => match last {
            None => {
                let id_text = signed_decimal_text(order_id as i64);
                (
                    PreparingState::Finished,
                    PreparingAction::RollBack {
                        error: AppError::NotFound(join2("Provider delivery not found for assignment id ", id_text.as_str())),
                    },
                )
            },
            Some(round) => (PreparingState::AwaitNextDelivery, PreparingAction::StoreNextDelivery { round: round + 1 }),
        },
        (PreparingState::AwaitNextDelivery, PreparingEvent::Written) => (
            PreparingState::AwaitExchangeItems,
            PreparingAction::StoreExchangeItems,
        ),
        (PreparingState::AwaitExchangeItems, PreparingEvent::Written) => (
            PreparingState::AwaitReturnsMarked { next: OrderStatus::ExchangeInProgress },
            PreparingAction::MarkReturnsReturned,
        ),
        (PreparingState::AwaitReturnsMarked { next }, PreparingEvent::Written) => (
            PreparingState::AwaitStatusUpdate { next },
            PreparingAction::UpdateStatus { next },
        ),
        (PreparingState::AwaitStatusUpdate { next }, PreparingEvent::StatusUpdated(rows)) => {
            match check_status_update_applied(rows, order_code) {
                Err(err) => (PreparingState::Finished, PreparingAction::RollBack { error: err }),
                Ok(()) => (PreparingState::AwaitHistory { next }, PreparingAction::RecordHistory { next }),
            }
        },
        (PreparingState::AwaitHistory { next }, PreparingEvent::Written) => (
            PreparingState::AwaitCommit { next },
            PreparingAction::Commit,
        ),
        (PreparingState::AwaitCommit { next }, PreparingEvent::Written) => (
            PreparingState::Finished,
            PreparingAction::Reply { status: next },
        ),
        (s, _) => (s, PreparingAction::Ignore),
    }
}


/// Law: a refusal or a storage failure ends the preparation, and an ended
/// preparation does nothing more; so nothing is committed after a refusal.
pub proof fn law_refusal_ends_the_preparation(
    s: PreparingState,
    e: PreparingEvent,
    order_code: Seq<char>,
    id_card: Option<Seq<char>>,
    t: PreparingState,
    a: PreparingAction,
)
    requires
        preparing_step_spec(s, e, order_code, id_card, t, a),
    ensures
        a is RollBack ==> t is Finished,
        s is Finished ==> t is Finished && a is Ignore,
{
}

/// Law: the transaction is committed only once the status move has been
/// recorded, and only when the storage reported that record written.
pub proof fn law_commit_follows_the_recorded_move(
    s: PreparingState,
    e: PreparingEvent,
    order_code: Seq<char>,
    id_card: Option<Seq<char>>,
    t: PreparingState,
    a: PreparingAction,
)
    requires
        preparing_step_spec(s, e, order_code, id_card, t, a),
    ensures
        a is Commit ==> s is AwaitHistory && e is Written,
{
}

/// Law: an order that is missing, in a status that cannot be prepared, or
/// assigned without a staff member is refused right after the lookup, before
/// anything is written.
pub proof fn law_unpreparable_order_writes_nothing(
    found: Option<(i32, OrderStatus)>,
    order_code: Seq<char>,
    id_card: Option<Seq<char>>,
    t: PreparingState,
    a: PreparingAction,
)
    requires
        preparing_step_spec(PreparingState::AwaitOrder, PreparingEvent::OrderFetched(found), order_code, id_card, t, a),
        match found {
            None => true,
            Some((_, status)) => (status != OrderStatus::Assigned && status != OrderStatus::ExchangeRequested) || (
            status == OrderStatus::Assigned && id_card is None),
        },
    ensures
        t is Finished,
        a is RollBack,
{
    let plan = choose|plan: Result<PreparingPlan, AppError>|
        #[trigger] preparing_plan_outcome(found_status(found), order_code, id_card, plan) && match plan {
            Err(err) => t is Finished && a == (PreparingAction::RollBack { error: err }),
            Ok(PreparingPlan::FirstDelivery { id_card: c }) => (t matches PreparingState::AwaitFirstDelivery {
                id_card: tc,
            } && tc@ == c@) && (a matches PreparingAction::StoreFirstDelivery { id_card: ac } && ac@ == c@),
            Ok(PreparingPlan::ExchangeRedelivery) => (found matches Some((id, _)) && t == (
            PreparingState::AwaitLastDelivery { order_id: id })) && a is FetchLastDelivery,
        };
    assert(plan is Err);
}

} // verus!
