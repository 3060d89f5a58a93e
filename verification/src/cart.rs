//! One open cart per user: how the cart of a user is found, and how a new one
//! is made when there is none.
//!
//! The user row points to the user's cart. Making a cart fails with a
//! concurrency error where a live cart of the user exists that the pointer
//! does not lead to, and where the user row changed since the caller read it:
//! in both cases another request made a cart first.

use vstd::prelude::*;
use crate::domain_events::spec_record_event;
use crate::errors::DatabaseError;
use crate::model::{DomainEvent, EventData, NewOrder, Order, User};
use crate::orders::Outcome;
use crate::store::{find_index, index_of, take_id, Store, StoreState};
use crate::types::{DomainEventTypes, Id, OrderStatus, OrderTypes, Tables, Timestamp};

verus! {

/// Whether the order is a cart of `user_id` that can still be filled at `now`.
pub open spec fn open_cart(order: Order, user_id: Id, now: Timestamp) -> bool {
    &&& order.user_id == user_id
    &&& order.status == OrderStatus::Draft
    &&& order.order_type == OrderTypes::Cart
    &&& (order.expires_at is None || order.expires_at->0 >= now)
}

/// The cart that the row of `user_id` points to, where it is still open.
pub open spec fn spec_find_cart(s: StoreState, user_id: Id, now: Timestamp) -> Option<Order> {
    match index_of(s.users, user_id) {
        None => None,
        Some(u) => match s.users[u].last_cart_id {
            None => None,
            Some(cart_id) => match index_of(s.orders, cart_id) {
                None => None,
                Some(i) => if open_cart(s.orders[i], user_id, now) {
                    Some(s.orders[i])
                } else {
                    None
                },
            },
        },
    }
}

/// Whether the order is a cart of `user_id` with an expiry after `now`.
pub open spec fn live_cart(order: Order, user_id: Id, now: Timestamp) -> bool {
    &&& order.user_id == user_id
    &&& order.status == OrderStatus::Draft
    &&& order.order_type == OrderTypes::Cart
    &&& order.expires_at is Some
    &&& order.expires_at->0 > now
}

/// Whether some cart of `user_id` has an expiry after `now`.
pub open spec fn live_cart_exists(orders: Seq<Order>, user_id: Id, now: Timestamp) -> bool {
    exists|i: int| 0 <= i < orders.len() && live_cart(#[trigger] orders[i], user_id, now)
}

/// Whether the row of `user` is as the caller read it.
pub open spec fn user_current(users: Seq<User>, user: User) -> bool {
    &&& index_of(users, user.id) is Some
    &&& users[index_of(users, user.id)->0].updated_at == user.updated_at
    &&& users[index_of(users, user.id)->0].last_cart_id == user.last_cart_id
}

/// The user table after the cart pointer of `user` was set.
pub open spec fn spec_update_last_cart(
    users: Seq<User>,
    user: User,
    new_cart_id: Option<Id>,
    now: Timestamp,
) -> Result<Seq<User>, DatabaseError> {
    if !user_current(users, user) {
        Err(DatabaseError::LastCartChanged)
    } else {
        let i = index_of(users, user.id)->0;
        Ok(users.update(i, User { last_cart_id: new_cart_id, updated_at: now, ..users[i] }))
    }
}

/// A cart as it is made: a draft without items, expiry or payment.
pub open spec fn new_cart(id: Id, user_id: Id, now: Timestamp) -> Order {
    Order {
        id,
        user_id,
        status: OrderStatus::Draft,
        order_type: OrderTypes::Cart,
        order_date: now,
        expires_at: None,
        version: 0,
        note: None,
        on_behalf_of_user_id: None,
        created_at: now,
        updated_at: now,
        paid_at: None,
        box_office_pricing: false,
        checkout_url: None,
        checkout_url_expires: None,
        create_user_agent: None,
        purchase_user_agent: None,
        external_payment_type: None,
    }
}

/// The cart of the user: the open one that the user row points to, or a new
/// one, to which the pointer then leads and of which the log tells.
pub open spec fn spec_find_or_create_cart(s: StoreState, user: User, now: Timestamp) -> Outcome {
    match spec_find_cart(s, user.id, now) {
        Some(cart) => Ok((s, cart)),
        None => if live_cart_exists(s.orders, user.id, now) {
            Err(DatabaseError::CartCreationRace)
        } else {
            match take_id(s) {
                None => Err(DatabaseError::IdentifiersExhausted),
                Some((s1, id)) => match spec_update_last_cart(s1.users, user, Some(id), now) {
                    Err(e) => Err(e),
                    Ok(users) => match spec_record_event(
                        StoreState { orders: s1.orders.push(new_cart(id, user.id, now)), users, ..s1 },
                        DomainEventTypes::OrderCreated,
                        Tables::Orders,
                        Some(id),
                        Some(user.id),
                        EventData::Empty,
                        now,
                    ) {
                        Err(e) => Err(e),
                        Ok((s2, _)) => Ok((s2, new_cart(id, user.id, now))),
                    },
                },
            }
        },
    }
}

fn is_open_cart(order: &Order, user_id: Id, now: Timestamp) -> (yes: bool)
    ensures
        yes == open_cart(*order, user_id, now),
{
    let in_time = match order.expires_at {
        Some(t) => t >= now,
        None => true,
    };
    order.user_id == user_id && order.status == OrderStatus::Draft && order.order_type
        == OrderTypes::Cart && in_time
}

fn is_live_cart(order: &Order, user_id: Id, now: Timestamp) -> (yes: bool)
    ensures
        yes == live_cart(*order, user_id, now),
{
    let in_time = match order.expires_at {
        Some(t) => t > now,
        None => false,
    };
    order.user_id == user_id && order.status == OrderStatus::Draft && order.order_type
        == OrderTypes::Cart && in_time
}

fn has_live_cart(store: &Store, user_id: Id, now: Timestamp) -> (yes: bool)
    ensures
        yes == live_cart_exists(store@.orders, user_id, now),
{
    let mut k: usize = 0;
    while k < store.orders.len()
        invariant
            k <= store.orders.len(),
            forall|j: int| 0 <= j < k ==> !live_cart(#[trigger] store@.orders[j], user_id, now),
        decreases store.orders.len() - k,
    {
        if is_live_cart(&store.orders[k], user_id, now) {
            return true;
        }
        k += 1;
    }
    false
}

fn same_cart(a: Option<Id>, b: Option<Id>) -> (yes: bool)
    ensures
        yes == (a == b),
{
    match (a, b) {
        (Some(x), Some(y)) => x == y,
        (None, None) => true,
        _ => false,
    }
}

impl User {
    /// Points the user row to `new_cart_id`, where the row is still as this
    /// value was read. Otherwise another writer changed the row, and nothing
    /// changes.
    pub fn update_last_cart(&self, new_cart_id: Option<Id>, store: &mut Store, now: Timestamp) -> (res:
        Result<(), DatabaseError>)
        ensures
            match spec_update_last_cart(old(store)@.users, *self, new_cart_id, now) {
                Ok(users) => res is Ok && final(store)@ == (StoreState { users, ..old(store)@ }),
                Err(e) => res == Err::<(), DatabaseError>(e) && final(store)@ == old(store)@,
            },
    {
        let i = match find_index(&store.users, self.id) {
            Some(i) => i,
            None => {
                return Err(DatabaseError::LastCartChanged);
            },
        };
        if store.users[i].updated_at != self.updated_at || !same_cart(
            store.users[i].last_cart_id,
            self.last_cart_id,
        ) {
            return Err(DatabaseError::LastCartChanged);
        }
        store.users[i].last_cart_id = new_cart_id;
        store.users[i].updated_at = now;
        assert(store@.users =~= spec_update_last_cart(
            old(store)@.users,
            *self,
            new_cart_id,
            now,
        )->Ok_0);
        Ok(())
    }
}

impl Order {
    /// The cart that the row of `user_id` points to, where it is a draft cart
    /// of the user that has not run out at `now`.
    pub fn find_cart_for_user(user_id: Id, store: &Store, now: Timestamp) -> (cart: Option<Order>)
        ensures
            cart == spec_find_cart(store@, user_id, now),
    {
        let u = match find_index(&store.users, user_id) {
            Some(u) => u,
            None => {
                return None;
            },
        };
        let cart_id = match store.users[u].last_cart_id {
            Some(cart_id) => cart_id,
            None => {
                return None;
            },
        };
        match find_index(&store.orders, cart_id) {
            None => None,
            Some(i) => {
                if is_open_cart(&store.orders[i], user_id, now) {
                    Some(store.orders[i].clone())
                } else {
                    None
                }
            },
        }
    }

    /// The cart of `user`: the open one that the user row points to, or a
    /// new one. A new cart is written to the store, the user row points to
    /// it and the log tells of it. Where it fails, nothing changes.
    pub fn find_or_create_cart(user: &User, store: &mut Store, now: Timestamp) -> (res: Result<
        Order,
        DatabaseError,
    >)
        ensures
            match spec_find_or_create_cart(old(store)@, *user, now) {
                Ok((s, cart)) => res == Ok::<Order, DatabaseError>(cart) && final(store)@ == s,
                Err(e) => res == Err::<Order, DatabaseError>(e) && final(store)@ == old(store)@,
            },
    {
        match Order::find_cart_for_user(user.id, store, now) {
            Some(cart) => {
                return Ok(cart);
            },
            None => {},
        }
        if has_live_cart(store, user.id, now) {
            return Err(DatabaseError::CartCreationRace);
        }
        if store.next_id == u128::MAX {
            return Err(DatabaseError::IdentifiersExhausted);
        }
        let u = match find_index(&store.users, user.id) {
            Some(u) => u,
            None => {
                return Err(DatabaseError::LastCartChanged);
            },
        };
        if store.users[u].updated_at != user.updated_at || !same_cart(
            store.users[u].last_cart_id,
            user.last_cart_id,
        ) {
            return Err(DatabaseError::LastCartChanged);
        }
        if store.next_id == u128::MAX - 1 {
            return Err(DatabaseError::IdentifiersExhausted);
        }
        let id = match store.allocate_id() {
            Ok(id) => id,
            Err(e) => {
                return Err(e);
            },
        };
        let cart = Order {
            id,
            user_id: user.id,
            status: OrderStatus::Draft,
            order_type: OrderTypes::Cart,
            order_date: now,
            expires_at: None,
            version: 0,
            note: None,
            on_behalf_of_user_id: None,
            created_at: now,
            updated_at: now,
            paid_at: None,
            box_office_pricing: false,
            checkout_url: None,
            checkout_url_expires: None,
            create_user_agent: None,
            purchase_user_agent: None,
            external_payment_type: None,
        };
        store.orders.push(cart.clone());
        store.users[u].last_cart_id = Some(id);
        store.users[u].updated_at = now;
        assert(store@.users =~= spec_update_last_cart(old(store)@.users, *user, Some(id), now)->Ok_0);
        match DomainEvent::create(
            DomainEventTypes::OrderCreated,
            Tables::Orders,
            Some(id),
            Some(user.id),
            EventData::Empty,
            store,
            now,
        ) {
            Ok(_) => Ok(cart),
            Err(e) => Err(e),
        }
    }
}

/// The order as the row that is written for it at `now`.
pub open spec fn order_row(order: NewOrder, id: Id, now: Timestamp) -> Order {
    Order {
        id,
        user_id: order.user_id,
        status: order.status,
        order_type: order.order_type,
        order_date: now,
        expires_at: order.expires_at,
        version: 0,
        note: None,
        on_behalf_of_user_id: None,
        created_at: now,
        updated_at: now,
        paid_at: None,
        box_office_pricing: false,
        checkout_url: None,
        checkout_url_expires: None,
        create_user_agent: order.create_user_agent,
        purchase_user_agent: None,
        external_payment_type: None,
    }
}

impl NewOrder {
    /// Writes the order to the store under a new identifier. Fails, and
    /// changes nothing, only where no identifier is left.
    pub fn commit(self, store: &mut Store, now: Timestamp) -> (res: Result<Order, DatabaseError>)
        ensures
            match take_id(old(store)@) {
                Some((s, id)) => res == Ok::<Order, DatabaseError>(order_row(self, id, now))
                    && final(store)@ == (StoreState {
                    orders: s.orders.push(order_row(self, id, now)),
                    ..s
                }),
                None => res == Err::<Order, DatabaseError>(DatabaseError::IdentifiersExhausted)
                    && final(store)@ == old(store)@,
            },
    {
        let id = store.allocate_id()?;
        let row = Order {
            id,
            user_id: self.user_id,
            status: self.status,
            order_type: self.order_type,
            order_date: now,
            expires_at: self.expires_at,
            version: 0,
            note: None,
            on_behalf_of_user_id: None,
            created_at: now,
            updated_at: now,
            paid_at: None,
            box_office_pricing: false,
            checkout_url: None,
            checkout_url_expires: None,
            create_user_agent: self.create_user_agent,
            purchase_user_agent: None,
            external_payment_type: None,
        };
        store.orders.push(row.clone());
        Ok(row)
    }
}

} // verus!
