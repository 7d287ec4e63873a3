//! The domain model: value objects, the order entity, the error taxonomy
//! and the three capability ports the orchestration service depends on.

use vstd::prelude::*;

use crate::decimal::decimal_string;
use crate::decimal::digit_char;
use crate::decimal::digit_string;
use crate::decimal::spec_decimal;

verus! {

/// A unique identifier for an order.
///
/// A newtype wrapper instead of a raw `u32`, so that identifiers of
/// different kinds cannot be mixed up.
#[derive(Debug, Clone, Copy, PartialEq, Eq, Hash, Structural)]
pub struct OrderId(pub u32);

/// The display notation of an order identifier, `OrderId(n)`.
pub open spec fn spec_order_id_string(id: OrderId) -> Seq<char> {
    "OrderId("@ + spec_decimal(id.0 as nat) + ")"@
}

impl OrderId {
    /// The identifier rendered for display, e.g. `OrderId(42)`.
    pub fn formatted(&self) -> (s: String)
        ensures
            s@ == spec_order_id_string(*self),
    {
        let mut s = "OrderId(".to_owned();
        let digits = decimal_string(self.0);
        s.append(digits.as_str());
        s.append(")");
        proof {
            assert(s@ =~= spec_order_id_string(*self));
        }
        s
    }
}

/// A monetary value, an exact count of minor currency units (cents), so
/// that no fractional representation appears anywhere in the core.
///
/// `$49.99` is stored as `Money(4999)`.
#[derive(Debug, Clone, Copy, PartialEq, Eq, Structural)]
pub struct Money(pub u32);

/// The display notation of a monetary value, `$d.cc`.
pub open spec fn spec_money_string(m: Money) -> Seq<char> {
    "$"@ + spec_decimal((m.0 / 100) as nat) + "."@ + seq![
        digit_char(((m.0 / 10) % 10) as nat),
        digit_char((m.0 % 10) as nat),
    ]
}

impl Money {
    /// The dollars portion (e.g. 49 for $49.99).
    #[must_use]
    pub fn dollars(self) -> (d: u32)
        ensures
            d == self.0 / 100,
    {
        self.0 / 100
    }

    /// The cents portion, 0-99 (e.g. 99 for $49.99).
    #[must_use]
    pub fn cents(self) -> (c: u32)
        ensures
            c == self.0 % 100,
    {
        self.0 % 100
    }

    /// The amount rendered for display, e.g. `$49.99`.
    pub fn formatted(&self) -> (s: String)
        ensures
            s@ == spec_money_string(*self),
    {
        let mut s = "$".to_owned();
        let digits = decimal_string(self.0 / 100);
        s.append(digits.as_str());
        s.append(".");
        s.append(digit_string((self.0 / 10) % 10));
        s.append(digit_string(self.0 % 10));
        proof {
            assert(s@ =~= spec_money_string(*self));
        }
        s
    }
}

/// A single item in an order: a display name and a unit price.
#[derive(Debug)]
pub struct LineItem {
    pub name: String,
    pub price: Money,
}

/// The mathematical model of a line item: the name as a character
/// sequence, the price as an exact amount.
pub struct LineItemModel {
    pub name: Seq<char>,
    pub price: Money,
}

impl View for LineItem {
    type V = LineItemModel;

    open spec fn view(&self) -> LineItemModel {
        LineItemModel { name: self.name@, price: self.price }
    }
}

impl Clone for LineItem {
    fn clone(&self) -> (res: Self)
        ensures
            res == *self,
    {
        LineItem { name: self.name.clone(), price: self.price }
    }
}

/// The models of a sequence of line items.
pub open spec fn items_model(items: Seq<LineItem>) -> Seq<LineItemModel> {
    items.map_values(|item: LineItem| item@)
}

/// The exact sum, in cents, of the prices of `items`.
pub open spec fn sum_prices(items: Seq<LineItemModel>) -> int
    decreases items.len(),
{
    if items.len() == 0 {
        0
    } else {
        sum_prices(items.drop_last()) + items.last().price.0
    }
}

/// An order: an identifier, an ordered sequence of line items, and the
/// total computed once at construction.
#[derive(Debug)]
pub struct Order {
    pub id: OrderId,
    pub items: Vec<LineItem>,
    pub total: Money,
}

/// The mathematical model of an order.
pub struct OrderModel {
    pub id: OrderId,
    pub items: Seq<LineItemModel>,
    pub total: Money,
}

impl OrderModel {
    /// The entity invariant: an order holds at least one item, and its
    /// total is the exact sum of the item prices.
    pub open spec fn wf(self) -> bool {
        &&& self.items.len() > 0
        &&& self.total.0 == sum_prices(self.items)
    }
}

impl View for Order {
    type V = OrderModel;

    open spec fn view(&self) -> OrderModel {
        OrderModel { id: self.id, items: items_model(self.items@), total: self.total }
    }
}

impl Clone for Order {
    fn clone(&self) -> (res: Self)
        ensures
            res.id == self.id,
            res.items@ == self.items@,
            res.total == self.total,
            res@ == self@,
    {
        let mut items: Vec<LineItem> = Vec::new();
        let mut i: usize = 0;
        while i < self.items.len()
            invariant
                i <= self.items.len(),
                items@ =~= self.items@.take(i as int),
            decreases self.items.len() - i,
        {
            items.push(self.items[i].clone());
            i = i + 1;
        }
        proof {
            assert(items@ =~= self.items@);
        }
        Order { id: self.id, items, total: self.total }
    }
}

/// The order constructed by a placement: the given identifier and items,
/// with the total as the exact sum of the item prices.
pub open spec fn constructed_order(id: OrderId, items: Seq<LineItemModel>) -> OrderModel {
    OrderModel { id, items, total: Money(sum_prices(items) as u32) }
}

impl Order {
    /// Creates a new order from line items, enforcing the business rule
    /// that an order must have at least one item and computing the total
    /// as the exact sum of the item prices.
    pub fn new(id: OrderId, items: Vec<LineItem>) -> (r: Result<Self, OrderError>)
        requires
            sum_prices(items_model(items@)) <= u32::MAX,
        ensures
            items@.len() == 0 <==> r == Err::<Order, OrderError>(OrderError::InvalidOrder),
            r matches Err(e) ==> e == OrderError::InvalidOrder,
            r matches Ok(order) ==> order@ == constructed_order(id, items_model(items@)),
            r matches Ok(order) ==> order@.wf(),
    {
        if items.is_empty() {
            return Err(OrderError::InvalidOrder);
        }

        let mut total: u32 = 0;
        let mut i: usize = 0;
        while i < items.len()
            invariant
                i <= items.len(),
                total == sum_prices(items_model(items@).take(i as int)),
                sum_prices(items_model(items@)) <= u32::MAX,
            decreases items.len() - i,
        {
            proof {
                lemma_sum_prices_take_succ(items_model(items@), i as int);
                lemma_sum_prices_take_bounded(items_model(items@), i + 1);
            }
            total = total + items[i].price.0;
            i = i + 1;
        }
        proof {
            assert(items_model(items@).take(items@.len() as int) =~= items_model(items@));
        }

        Ok(Order { id, items, total: Money(total) })
    }
}

/// The sum over one more element of a prefix.
proof fn lemma_sum_prices_take_succ(items: Seq<LineItemModel>, i: int)
    requires
        0 <= i < items.len(),
    ensures
        sum_prices(items.take(i + 1)) == sum_prices(items.take(i)) + items[i].price.0,
{
    assert(items.take(i + 1).drop_last() =~= items.take(i));
}

/// Prices are non-negative, so a prefix sum never exceeds the whole sum.
proof fn lemma_sum_prices_take_bounded(items: Seq<LineItemModel>, i: int)
    requires
        0 <= i <= items.len(),
    ensures
        sum_prices(items.take(i)) <= sum_prices(items),
    decreases items.len() - i,
{
    if i < items.len() {
        lemma_sum_prices_take_succ(items, i);
        lemma_sum_prices_take_bounded(items, i + 1);
    } else {
        assert(items.take(i) =~= items);
    }
}

/// The closed set of domain-level failure kinds. Errors are transient
/// values returned from operations, never stored, and every kind is
/// terminal for the invocation that raised it.
#[derive(Debug)]
pub enum OrderError {
    /// The order violates a business rule (no items).
    InvalidOrder,
    /// The payment charger reported a failure.
    PaymentFailed,
    /// The repository reported a failure.
    StorageFailed,
    /// The notifier reported a failure.
    NotificationFailed,
}

impl OrderError {
    /// The name of the failure kind, for display.
    pub fn formatted(&self) -> (s: String)
        ensures
            s@ == spec_order_error_string(*self),
    {
        match self {
            OrderError::InvalidOrder => "InvalidOrder".to_owned(),
            OrderError::PaymentFailed => "PaymentFailed".to_owned(),
            OrderError::StorageFailed => "StorageFailed".to_owned(),
            OrderError::NotificationFailed => "NotificationFailed".to_owned(),
        }
    }
}

/// The display notation of each failure kind.
pub open spec fn spec_order_error_string(e: OrderError) -> Seq<char> {
    match e {
        OrderError::InvalidOrder => "InvalidOrder"@,
        OrderError::PaymentFailed => "PaymentFailed"@,
        OrderError::StorageFailed => "StorageFailed"@,
        OrderError::NotificationFailed => "NotificationFailed"@,
    }
}

/// Repository port: where orders are persisted.
///
/// The spec function `stored` is the port's model: the map from
/// identifiers to the orders currently retained. Saving is idempotent
/// with respect to the identifier (re-saving overwrites), a failed save
/// retains the map unchanged, and looking up an identifier that was never
/// saved yields "absent", not an error.
pub trait OrderRepository: Sized {
    /// The orders currently retained, keyed by identifier. An adapter
    /// overrides this model to say what its store holds; the default is
    /// the model of a store that retains nothing.
    open spec fn stored(&self) -> Map<OrderId, OrderModel> {
        Map::<OrderId, OrderModel>::empty()
    }

    /// Saves an order, overwriting any order with the same identifier.
    /// Fails only with `StorageFailed`, leaving the retained orders as
    /// they were.
    fn save(&mut self, order: &Order) -> (r: Result<(), OrderError>)
        ensures
            r is Ok ==> final (self).stored() == old(self).stored().insert(order.id, order@),
            r matches Err(e) ==> e == OrderError::StorageFailed && final (self).stored() == old(
                self,
            ).stored(),
    ;

    /// Finds an order by identifier. An identifier never saved yields
    /// `None`; a failure of the storage itself yields `StorageFailed`.
    fn find(&self, id: OrderId) -> (r: Result<Option<Order>, OrderError>)
        ensures
            match r {
                Ok(Some(order)) => self.stored().contains_key(id) && order@ == self.stored()[id],
                Ok(None) => !self.stored().contains_key(id),
                Err(e) => e == OrderError::StorageFailed,
            },
    ;
}

/// Payment port: how order totals are charged.
///
/// A charge is attempted exactly once per placement; a failure is
/// terminal for that attempt and is reported as `PaymentFailed`.
pub trait PaymentGateway {
    /// Charges the given amount. Fails only with `PaymentFailed`.
    fn charge(&self, amount: Money) -> (r: Result<(), OrderError>)
        ensures
            r matches Err(e) ==> e == OrderError::PaymentFailed,
    ;
}

/// Notification port: how customers learn of their orders.
///
/// The orchestrator waits for completion before considering a placement
/// finished; a failure is reported as `NotificationFailed`, with no
/// delivery guarantee beyond the call's return.
pub trait Sender {
    /// Sends a notification about an order. Fails only with
    /// `NotificationFailed`.
    fn send(&self, order: &Order) -> (r: Result<(), OrderError>)
        ensures
            r matches Err(e) ==> e == OrderError::NotificationFailed,
    ;
}

} // verus!
