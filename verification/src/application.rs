//! The orchestration service: sequences identifier assignment, entity
//! construction, payment, persistence and notification, depending only on
//! the three port contracts and never on a concrete adapter.

use vstd::prelude::*;

use crate::domain::LineItem;
use crate::domain::Order;
use crate::domain::OrderError;
use crate::domain::OrderId;
use crate::domain::OrderModel;
use crate::domain::OrderRepository;
use crate::domain::PaymentGateway;
use crate::domain::Sender;
use crate::domain::constructed_order;
use crate::domain::items_model;
use crate::domain::sum_prices;

verus! {

/// Application service for order operations.
///
/// Holds the three injected port adapters for its whole lifetime together
/// with a private identifier counter, initialized to 1 and advanced by
/// exactly one on every placement attempt, successful or not: identifiers
/// denote placement attempts, not successes, so a failed attempt burns
/// its identifier.
pub struct OrderService<R, P, N> where R: OrderRepository, P: PaymentGateway, N: Sender {
    repository: R,
    payment: P,
    sender: N,
    next_id: u32,
}

impl<R, P, N> OrderService<R, P, N> where R: OrderRepository, P: PaymentGateway, N: Sender {
    /// The identifier the next placement attempt will use.
    pub closed spec fn next_identifier(&self) -> u32 {
        self.next_id
    }

    /// The orders the injected repository currently retains.
    pub closed spec fn stored(&self) -> Map<OrderId, OrderModel> {
        self.repository.stored()
    }

    /// Creates a new order service with injected dependencies. The caller
    /// decides which concrete adapters to use; the service accepts
    /// anything that satisfies the port contracts.
    pub fn new(repository: R, payment: P, sender: N) -> (s: Self)
        ensures
            s.next_identifier() == 1,
            s.stored() == repository.stored(),
    {
        OrderService { repository, payment, sender, next_id: 1 }
    }

    /// Places a new order: allocates the next identifier, constructs the
    /// order, charges its total, persists it, and notifies the customer,
    /// in that fixed sequence. The charge comes before the save, so an
    /// unpaid order is never recorded; a save failure after a successful
    /// charge has no compensating action. A notification failure is
    /// reported to the caller as a full-call failure, although by then
    /// the order has been paid and persisted.
    ///
    /// The identifier counter advances on every attempt, even one that
    /// fails validation. A service would exhaust its `u32` counter only
    /// after `u32::MAX - 1` placement attempts; the caller keeps it below
    /// that bound.
    pub fn place_order(&mut self, items: Vec<LineItem>) -> (r: Result<Order, OrderError>)
        requires
            old(self).next_identifier() < u32::MAX,
            sum_prices(items_model(items@)) <= u32::MAX,
        ensures
            final (self).next_identifier() == old(self).next_identifier() + 1,
            items@.len() == 0 <==> r == Err::<Order, OrderError>(OrderError::InvalidOrder),
            r matches Ok(order) ==> {
                &&& order@ == constructed_order(
                    OrderId(old(self).next_identifier()),
                    items_model(items@),
                )
                &&& order@.wf()
                &&& final (self).stored() == old(self).stored().insert(order@.id, order@)
            },
            r == Err::<Order, OrderError>(OrderError::NotificationFailed) ==> {
                let order = constructed_order(
                    OrderId(old(self).next_identifier()),
                    items_model(items@),
                );
                final (self).stored() == old(self).stored().insert(order.id, order)
            },
            r == Err::<Order, OrderError>(OrderError::InvalidOrder) || r == Err::<
                Order,
                OrderError,
            >(OrderError::PaymentFailed) || r == Err::<Order, OrderError>(
                OrderError::StorageFailed,
            ) ==> final (self).stored() == old(self).stored(),
    {
        let order_id = OrderId(self.next_id);
        self.next_id = self.next_id + 1;

        let order = match Order::new(order_id, items) {
            Ok(order) => order,
            Err(e) => {
                return Err(e);
            },
        };

        match self.payment.charge(order.total) {
            Ok(()) => {},
            Err(e) => {
                return Err(e);
            },
        }

        match self.repository.save(&order) {
            Ok(()) => {},
            Err(e) => {
                return Err(e);
            },
        }

        match self.sender.send(&order) {
            Ok(()) => {},
            Err(e) => {
                return Err(e);
            },
        }

        Ok(order)
    }

    /// Retrieves an order by identifier: pure delegation to the
    /// repository, with no orchestration logic and no other side effect.
    pub fn get_order(&self, id: OrderId) -> (r: Result<Option<Order>, OrderError>)
        ensures
            match r {
                Ok(Some(order)) => self.stored().contains_key(id) && order@ == self.stored()[id],
                Ok(None) => !self.stored().contains_key(id),
                Err(e) => e == OrderError::StorageFailed,
            },
    {
        self.repository.find(id)
    }
}

/// Round trip: a successful placement leaves the store holding exactly
/// the returned order under its identifier, so a subsequent successful
/// lookup of that identifier yields an order with the same identifier,
/// the same items and the same total.
pub proof fn lemma_place_then_get_round_trip(
    before: Map<OrderId, OrderModel>,
    order: OrderModel,
)
    ensures
        before.insert(order.id, order).contains_key(order.id),
        before.insert(order.id, order)[order.id] == order,
        before.insert(order.id, order)[order.id].id == order.id,
        before.insert(order.id, order)[order.id].items == order.items,
        before.insert(order.id, order)[order.id].total == order.total,
{
}

/// A placement touches no identifier but its own: whether any other
/// identifier is present in the store is exactly as it was before, so an
/// identifier never returned by a successful placement stays absent and
/// a lookup of it yields "absent", not an error.
pub proof fn lemma_other_identifiers_untouched(
    before: Map<OrderId, OrderModel>,
    order: OrderModel,
    other: OrderId,
)
    requires
        other != order.id,
    ensures
        before.insert(order.id, order).contains_key(other) == before.contains_key(other),
        before.contains_key(other) ==> before.insert(order.id, order)[other] == before[other],
{
}

/// The counter value before the attempt at position `k` of a run that
/// started at 1 and advanced by one each attempt.
proof fn lemma_counter_value(counters: Seq<u32>, k: int)
    requires
        counters.len() > 0,
        counters[0] == 1,
        forall|j: int| #![trigger counters[j]] 0 <= j < counters.len() - 1 ==> counters[j + 1] == counters[j] + 1,
        0 <= k < counters.len(),
    ensures
        counters[k] == k + 1,
    decreases k,
{
    if k > 0 {
        lemma_counter_value(counters, k - 1);
        assert(counters[(k - 1) + 1] == counters[k - 1] + 1);
    }
}

/// Consecutive identifiers: in any run of placement attempts on a fresh
/// service, where `counters[k]` is the service's counter before the
/// attempt at position `k` and `ids[k]` the identifier that attempt used,
/// the identifiers are exactly `1, 2, ..., N` in call order, with no
/// repeats. The hypotheses are what `OrderService::new` and
/// `place_order` ensure: the counter starts at 1, every attempt uses the
/// counter it found and advances it by one.
pub proof fn lemma_identifiers_consecutive(counters: Seq<u32>, ids: Seq<u32>)
    requires
        counters.len() == ids.len() + 1,
        counters[0] == 1,
        forall|k: int| 0 <= k < ids.len() ==> ids[k] == counters[k],
        forall|k: int| #![trigger counters[k]] 0 <= k < ids.len() ==> counters[k + 1] == counters[k] + 1,
    ensures
        forall|k: int| 0 <= k < ids.len() ==> ids[k] == k + 1,
        forall|k1: int, k2: int|
            0 <= k1 < ids.len() && 0 <= k2 < ids.len() && k1 != k2 ==> ids[k1] != ids[k2],
{
    assert forall|k: int| 0 <= k < ids.len() implies ids[k] == k + 1 by {
        lemma_counter_value(counters, k);
    }
}

} // verus!
