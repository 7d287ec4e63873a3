//! Repository adapters: in-memory implementations of the repository
//! port, one plain and one standing in for an external database.

use vstd::prelude::*;

use std::collections::HashMap;

use crate::domain::Order;
use crate::domain::OrderError;
use crate::domain::OrderId;
use crate::domain::OrderModel;
use crate::domain::OrderRepository;

verus! {

broadcast use vstd::std_specs::hash::group_hash_axioms;

/// In-memory order repository: a hash map acts as the store, so the
/// retained orders are gone when the value is dropped. Saving and
/// finding never fail.
#[derive(Debug)]
pub struct InMemoryOrderRepository {
    orders: HashMap<u32, Order>,
}

impl InMemoryOrderRepository {
    /// Creates a new empty in-memory repository.
    #[must_use]
    pub fn new() -> (r: Self)
        ensures
            r.stored() == Map::<OrderId, OrderModel>::empty(),
    {
        let r = InMemoryOrderRepository { orders: HashMap::new() };
        proof {
            assert(r.stored() =~= Map::<OrderId, OrderModel>::empty());
        }
        r
    }
}

impl OrderRepository for InMemoryOrderRepository {
    closed spec fn stored(&self) -> Map<OrderId, OrderModel> {
        Map::new(
            |id: OrderId| self.orders@.contains_key(id.0),
            |id: OrderId| self.orders@[id.0]@,
        )
    }

    fn save(&mut self, order: &Order) -> (r: Result<(), OrderError>)
        ensures
            r is Ok,
    {
        let copy = order.clone();
        self.orders.insert(copy.id.0, copy);
        proof {
            assert(self.stored() =~= old(self).stored().insert(order.id, order@));
        }
        Ok(())
    }

    fn find(&self, id: OrderId) -> (r: Result<Option<Order>, OrderError>)
        ensures
            r is Ok,
    {
        match self.orders.get(&id.0) {
            Some(order) => Ok(Some(order.clone())),
            None => Ok(None),
        }
    }
}

/// Simulated external-database order repository. A production adapter
/// would hold a connection pool and translate the database's errors into
/// `StorageFailed`; this stand-in retains orders in memory and never
/// fails, while satisfying the same repository contract.
#[derive(Debug)]
pub struct PostgresOrderRepository {
    simulated_db: HashMap<u32, Order>,
}

impl PostgresOrderRepository {
    /// Creates a new simulated database repository.
    #[must_use]
    pub fn new() -> (r: Self)
        ensures
            r.stored() == Map::<OrderId, OrderModel>::empty(),
    {
        let r = PostgresOrderRepository { simulated_db: HashMap::new() };
        proof {
            assert(r.stored() =~= Map::<OrderId, OrderModel>::empty());
        }
        r
    }
}

impl OrderRepository for PostgresOrderRepository {
    closed spec fn stored(&self) -> Map<OrderId, OrderModel> {
        Map::new(
            |id: OrderId| self.simulated_db@.contains_key(id.0),
            |id: OrderId| self.simulated_db@[id.0]@,
        )
    }

    fn save(&mut self, order: &Order) -> (r: Result<(), OrderError>)
        ensures
            r is Ok,
    {
        let copy = order.clone();
        self.simulated_db.insert(copy.id.0, copy);
        proof {
            assert(self.stored() =~= old(self).stored().insert(order.id, order@));
        }
        Ok(())
    }

    fn find(&self, id: OrderId) -> (r: Result<Option<Order>, OrderError>)
        ensures
            r is Ok,
    {
        match self.simulated_db.get(&id.0) {
            Some(order) => Ok(Some(order.clone())),
            None => Ok(None),
        }
    }
}

} // verus!
