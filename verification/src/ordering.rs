use vstd::prelude::*;
use crate::error::AppError;

verus! {

/// Where the placing of a customer's order stands, between two pieces of
/// storage work.
#[derive(Clone, Copy, Debug, PartialEq, Eq, Structural)]
pub enum OrderingState {
    /// Nothing done yet.
    Start,
    /// The customer (and its market) is being looked up.
    AwaitCustomer,
    /// Each line's price, discount rate and product are being looked up.
    AwaitLines,
    /// The order itself is being stored.
    AwaitOrder,
    /// The order's lines are being stored.
    AwaitDetails,
    /// The creation is being recorded in the order's history.
    AwaitHistory,
    /// The transaction is being committed.
    AwaitCommit,
    /// The request is answered; nothing more happens.
    Finished,
}

/// What the request and the storage report.
#[derive(Clone, Debug)]
pub enum OrderingEvent {
    /// An order with this many lines was submitted.
    Submitted(usize),
    /// Whether the customer was found.
    CustomerFetched(bool),
    /// Every line was priced and its product found.
    LinesPriced,
    /// The requested rows were written.
    Written,
    /// A lookup or the storage failed with this error.
    Failed(AppError),
}

/// What is to be done next.
#[derive(Clone, Debug)]
pub enum OrderingAction {
    FetchCustomer,
    /// Issue the order code and look up every line's price and product.
    PriceLines,
    /// Open the transaction and store the order.
    StoreOrder,
    StoreDetails,
    RecordHistory,
    Commit,
    /// Answer with the error; whatever was opened is rolled back.
    Stop { error: AppError },
    /// Answer with the new order's code.
    Reply,
    /// The event does not belong here; nothing is done.
    Ignore,
}

/// Whether the step from `s` on event `e` goes to `t` with action `a`.
pub open spec fn ordering_step_spec(s: OrderingState, e: OrderingEvent, t: OrderingState, a: OrderingAction) -> bool {
    if s == OrderingState::Finished {
        t == OrderingState::Finished && a is Ignore
    } else if e is Failed {
        t == OrderingState::Finished && a == (OrderingAction::Stop { error: e->0 })
    } else {
        match (s, e) {
            (OrderingState::Start, OrderingEvent::Submitted(n)) => if n == 0 {
                t == OrderingState::Finished && (a matches OrderingAction::Stop { error: AppError::BadRequest(m) }
                    && m@ == "订单不能为空"@)
            } else {
                t == OrderingState::AwaitCustomer && a is FetchCustomer
            },
            (OrderingState::AwaitCustomer, OrderingEvent::CustomerFetched(found)) => if found {
                t == OrderingState::AwaitLines && a is PriceLines
            } else {
                t == OrderingState::Finished && (a matches OrderingAction::Stop { error: AppError::NotFound(m) }
                    && m@ == "Customer not found"@)
            },
            (OrderingState::AwaitLines, OrderingEvent::LinesPriced) => t == OrderingState::AwaitOrder
                && a is StoreOrder,
            (OrderingState::AwaitOrder, OrderingEvent::Written) => t == OrderingState::AwaitDetails
                && a is StoreDetails,
            (OrderingState::AwaitDetails, OrderingEvent::Written) => t == OrderingState::AwaitHistory
                && a is RecordHistory,
            (OrderingState::AwaitHistory, OrderingEvent::Written) => t == OrderingState::AwaitCommit && a is Commit,
            (OrderingState::AwaitCommit, OrderingEvent::Written) => t == OrderingState::Finished && a is Reply,
            _ => t == s && a is Ignore,
        }
    }
}

/// One step of placing a customer's order: an order without lines is refused
/// before anything is looked up, the customer is looked up before any line,
/// every line is priced before the transaction opens, and the order, its
/// lines and its history are stored before the commit.
pub fn ordering_step(state: OrderingState, event: OrderingEvent) -> (r: (OrderingState, OrderingAction))
    ensures
        ordering_step_spec(state, event, r.0, r.1),
{
    if state == OrderingState::Finished {
        return (OrderingState::Finished, OrderingAction::Ignore);
    }
    if let OrderingEvent::Failed(error) = event {
        return (OrderingState::Finished, OrderingAction::Stop { error });
    }
    match (state, event) {
        (OrderingState::Start, OrderingEvent::Submitted(n)) => {
            if n == 0 {
                (OrderingState::Finished, OrderingAction::Stop { error: AppError::bad_request("订单不能为空") })
            } else {
                (OrderingState::AwaitCustomer, OrderingAction::FetchCustomer)
            }
        },
        (OrderingState::AwaitCustomer, OrderingEvent::CustomerFetched(found)) => {
            if found {
                (OrderingState::AwaitLines, OrderingAction::PriceLines)
            } else {
                (OrderingState::Finished, OrderingAction::Stop { error: AppError::not_found("Customer not found") })
            }
        },
        (OrderingState::AwaitLines, OrderingEvent::LinesPriced) => (OrderingState::AwaitOrder, OrderingAction::StoreOrder),
        (OrderingState::AwaitOrder, OrderingEvent::Written) => (OrderingState::AwaitDetails, OrderingAction::StoreDetails),
        (OrderingState::AwaitDetails, OrderingEvent::Written) => (
            OrderingState::AwaitHistory,
            OrderingAction::RecordHistory,
        ),
        (OrderingState::AwaitHistory, OrderingEvent::Written) => (OrderingState::AwaitCommit, OrderingAction::Commit),
        (OrderingState::AwaitCommit, OrderingEvent::Written) => (OrderingState::Finished, OrderingAction::Reply),
        (s, _) => (s, OrderingAction::Ignore),
    }
}

/// Law: an order without lines is refused at once, with
/// `BadRequest("订单不能为空")`, and nothing is looked up or stored after that.
pub proof fn law_empty_order_is_refused_before_any_lookup(t: OrderingState, a: OrderingAction)
    requires
        ordering_step_spec(OrderingState::Start, OrderingEvent::Submitted(0), t, a),
    ensures
        t == OrderingState::Finished,
        a matches OrderingAction::Stop { error: AppError::BadRequest(m) } && m@ == "订单不能为空"@,
        forall|e: OrderingEvent, t2: OrderingState, a2: OrderingAction|
            #[trigger] ordering_step_spec(t, e, t2, a2) ==> a2 is Ignore,
{
}

/// Law: storage work and the commit come only after the customer was found
/// and every line priced: the transaction opens only from the priced state,
/// and the commit only once the history is written.
pub proof fn law_storage_follows_pricing(s: OrderingState, e: OrderingEvent, t: OrderingState, a: OrderingAction)
    requires
        ordering_step_spec(s, e, t, a),
    ensures
        a is StoreOrder ==> s == OrderingState::AwaitLines && e is LinesPriced,
        a is PriceLines ==> s == OrderingState::AwaitCustomer && e == OrderingEvent::CustomerFetched(true),
        a is Commit ==> s == OrderingState::AwaitHistory && e is Written,
        a is Stop ==> t == OrderingState::Finished,
{
}

} // verus!
