//! The order row and the changes that touch it alone: the optimistic lock,
//! status, expiry and the fields that checkout records.
//!
//! An [`Order`] value is what a caller read from the store. A change that
//! locks compares the value's version with the row's: the first of two callers
//! that read the same version wins, the second gets a concurrency error and
//! must read again.

use vstd::prelude::*;
use crate::domain_events::spec_record_event;
use crate::errors::DatabaseError;
use crate::model::{DomainEvent, EventData, Order, OrderItem, TicketInstance};
use crate::order_items::items_of;
use crate::store::{find_index, index_of, Store, StoreState};
use crate::types::{
    fits_i64, DomainEventTypes, Id, OrderStatus, Tables, Timestamp, CART_EXPIRY_TIME_MINUTES,
    MICROS_PER_MINUTE,
};

verus! {

/// What a change of an order gives: the new state and the order as the caller
/// now holds it, or why nothing changed.
pub type Outcome = Result<(StoreState, Order), DatabaseError>;

/// Whether the row of `order` still carries the version that `order` was read with.
pub open spec fn version_current(s: StoreState, order: Order) -> bool {
    index_of(s.orders, order.id) is Some && s.orders[index_of(s.orders, order.id)->0].version
        == order.version
}

/// The lock: the version of the row and of the caller's value go up by one.
pub open spec fn spec_lock_version(s: StoreState, order: Order, now: Timestamp) -> Outcome {
    if !version_current(s, order) {
        Err(DatabaseError::OrderVersionMismatch)
    } else if order.version == i64::MAX {
        Err(DatabaseError::ArithmeticOverflow)
    } else {
        let i = index_of(s.orders, order.id)->0;
        Ok(
            (
                StoreState {
                    orders: s.orders.update(
                        i,
                        Order { version: (order.version + 1) as i64, updated_at: now, ..s.orders[i] },
                    ),
                    ..s
                },
                Order { version: (order.version + 1) as i64, ..order },
            ),
        )
    }
}

/// The moves that an order's status may make.
pub open spec fn status_change_allowed(from: OrderStatus, to: OrderStatus) -> bool {
    match (from, to) {
        (OrderStatus::Draft, OrderStatus::PendingPayment) => true,
        (OrderStatus::Draft, OrderStatus::Paid) => true,
        (OrderStatus::Draft, OrderStatus::Cancelled) => true,
        (OrderStatus::PendingPayment, OrderStatus::Paid) => true,
        (OrderStatus::PendingPayment, OrderStatus::Draft) => true,
        _ => false,
    }
}

/// The order table after the first row of `id` was rewritten by `change`.
pub open spec fn with_order_row(orders: Seq<Order>, id: Id, change: spec_fn(Order) -> Order) -> Seq<
    Order,
> {
    match index_of(orders, id) {
        Some(i) => orders.update(i, change(orders[i])),
        None => orders,
    }
}

/// A change of status: the row and the caller's value get the status, and the
/// time of payment where the status is `Paid`; the log gets an entry.
pub open spec fn spec_update_status(
    s: StoreState,
    order: Order,
    current_user_id: Option<Id>,
    status: OrderStatus,
    now: Timestamp,
) -> Outcome {
    if !status_change_allowed(order.status, status) {
        Err(DatabaseError::InvalidStatusChange { from: order.status, to: status })
    } else {
        let orders = with_order_row(
            s.orders,
            order.id,
            |row: Order|
                Order {
                    status,
                    paid_at: if status == OrderStatus::Paid {
                        Some(now)
                    } else {
                        row.paid_at
                    },
                    updated_at: now,
                    ..row
                },
        );
        match spec_record_event(
            StoreState { orders, ..s },
            DomainEventTypes::OrderStatusUpdated,
            Tables::Orders,
            Some(order.id),
            current_user_id,
            EventData::StatusChanged { old_status: order.status, new_status: status },
            now,
        ) {
            Err(e) => Err(e),
            Ok((s1, _)) => Ok(
                (
                    s1,
                    Order {
                        status,
                        paid_at: if status == OrderStatus::Paid {
                            Some(now)
                        } else {
                            order.paid_at
                        },
                        ..order
                    },
                ),
            ),
        }
    }
}

/// Going back to draft: nothing for a draft, a change of status for an order
/// whose payment is pending, an error for a paid or cancelled one.
pub open spec fn spec_reset_to_draft(
    s: StoreState,
    order: Order,
    current_user_id: Option<Id>,
    now: Timestamp,
) -> Outcome {
    match order.status {
        OrderStatus::Paid => Err(DatabaseError::ResetOfPaidOrder),
        OrderStatus::Cancelled => Err(DatabaseError::ResetOfCancelledOrder),
        OrderStatus::Draft => Ok((s, order)),
        OrderStatus::PendingPayment => spec_update_status(
            s,
            order,
            current_user_id,
            OrderStatus::Draft,
            now,
        ),
    }
}

/// Whether the expiry of the row of `order` may be written: the row carries
/// the caller's version and has not run out.
pub open spec fn expiry_writable(s: StoreState, order: Order, now: Timestamp) -> bool {
    &&& version_current(s, order)
    &&& {
        let row = s.orders[index_of(s.orders, order.id)->0];
        row.expires_at is None || row.expires_at->0 > now
    }
}

/// Whether `t` belongs to a line of the order `order_id`, whatever its status.
pub open spec fn ticket_of_order(items: Seq<OrderItem>, t: TicketInstance, order_id: Id) -> bool {
    &&& t.order_item_id is Some
    &&& index_of(items, t.order_item_id->0) is Some
    &&& items[index_of(items, t.order_item_id->0)->0].order_id == order_id
}

/// The instances after every one that belongs to a line of the order got
/// `expires_at` as the end of its reservation, whatever its status.
pub open spec fn extend_reservations(
    ts: Seq<TicketInstance>,
    items: Seq<OrderItem>,
    order_id: Id,
    expires_at: Timestamp,
) -> Seq<TicketInstance> {
    Seq::new(
        ts.len(),
        |i: int|
            if ticket_of_order(items, ts[i], order_id) {
                TicketInstance { reserved_until: Some(expires_at), ..ts[i] }
            } else {
                ts[i]
            },
    )
}

/// After an extension every instance that belongs to a line of the order
/// ends its reservation at `expires_at`, and every other instance is as it
/// was.
pub proof fn lemma_extend_reservations(
    ts: Seq<TicketInstance>,
    items: Seq<OrderItem>,
    order_id: Id,
    expires_at: Timestamp,
)
    ensures
        extend_reservations(ts, items, order_id, expires_at).len() == ts.len(),
        forall|i: int|
            0 <= i < ts.len() && ticket_of_order(items, #[trigger] ts[i], order_id)
                ==> extend_reservations(ts, items, order_id, expires_at)[i].reserved_until == Some(
                expires_at,
            ),
        forall|i: int|
            0 <= i < ts.len() && !ticket_of_order(items, #[trigger] ts[i], order_id)
                ==> extend_reservations(ts, items, order_id, expires_at)[i] == ts[i],
{
}

/// The expiry that a cart gets where the caller names none.
pub open spec fn default_expiry(now: Timestamp) -> int {
    now + CART_EXPIRY_TIME_MINUTES * MICROS_PER_MINUTE
}

/// Setting the expiry: the row, the caller's value and every instance that
/// belongs to a line of the order get the new time; the log gets an entry.
/// The version stays as it is.
pub open spec fn spec_set_expiry(
    s: StoreState,
    order: Order,
    current_user_id: Option<Id>,
    expires_at: Option<Timestamp>,
    now: Timestamp,
) -> Outcome {
    if expires_at is None && !fits_i64(default_expiry(now)) {
        Err(DatabaseError::ArithmeticOverflow)
    } else if !expiry_writable(s, order, now) {
        Err(DatabaseError::ExpiryUpdateRace)
    } else {
        let new_expiry: Timestamp = match expires_at {
            Some(t) => t,
            None => default_expiry(now) as i64,
        };
        let i = index_of(s.orders, order.id)->0;
        let s1 = StoreState {
            orders: s.orders.update(
                i,
                Order { expires_at: Some(new_expiry), updated_at: now, ..s.orders[i] },
            ),
            ticket_instances: extend_reservations(
                s.ticket_instances,
                s.order_items,
                order.id,
                new_expiry,
            ),
            ..s
        };
        match spec_record_event(
            s1,
            DomainEventTypes::OrderUpdated,
            Tables::Orders,
            Some(order.id),
            current_user_id,
            EventData::ExpiryChanged {
                old_expires_at: order.expires_at,
                new_expires_at: Some(new_expiry),
            },
            now,
        ) {
            Err(e) => Err(e),
            Ok((s2, _)) => Ok(
                (s2, Order { expires_at: Some(new_expiry), updated_at: now, ..order }),
            ),
        }
    }
}

/// Clearing the expiry of an empty cart.
pub open spec fn spec_remove_expiry(
    s: StoreState,
    order: Order,
    current_user_id: Id,
    now: Timestamp,
) -> Outcome {
    if items_of(s.order_items, order.id).len() > 0 {
        Err(DatabaseError::ExpiryOfNonEmptyCart)
    } else if !expiry_writable(s, order, now) {
        Err(DatabaseError::ExpiryUpdateRace)
    } else {
        let i = index_of(s.orders, order.id)->0;
        let s1 = StoreState {
            orders: s.orders.update(i, Order { expires_at: None, updated_at: now, ..s.orders[i] }),
            ..s
        };
        match spec_record_event(
            s1,
            DomainEventTypes::OrderUpdated,
            Tables::Orders,
            Some(order.id),
            Some(current_user_id),
            EventData::ExpiryChanged { old_expires_at: order.expires_at, new_expires_at: None },
            now,
        ) {
            Err(e) => Err(e),
            Ok((s2, _)) => Ok((s2, Order { expires_at: None, updated_at: now, ..order })),
        }
    }
}

/// Switching between box office and online prices: the flag of the row and
/// of the caller's value, and an entry in the log.
pub open spec fn spec_update_box_office_pricing(
    s: StoreState,
    order: Order,
    box_office_pricing: bool,
    current_user_id: Id,
    now: Timestamp,
) -> Outcome {
    let orders = with_order_row(
        s.orders,
        order.id,
        |row: Order| Order { box_office_pricing, updated_at: now, ..row },
    );
    match spec_record_event(
        StoreState { orders, ..s },
        DomainEventTypes::OrderUpdated,
        Tables::Orders,
        Some(order.id),
        Some(current_user_id),
        EventData::BoxOfficePricingChanged {
            old_box_office_pricing: order.box_office_pricing,
            new_box_office_pricing: box_office_pricing,
        },
        now,
    ) {
        Err(e) => Err(e),
        Ok((s1, _)) => Ok((s1, Order { box_office_pricing, ..order })),
    }
}

fn is_ticket_of_order(store: &Store, k: usize, order_id: Id) -> (yes: bool)
    requires
        k < store.ticket_instances.len(),
    ensures
        yes == ticket_of_order(store@.order_items, store@.ticket_instances[k as int], order_id),
{
    match store.ticket_instances[k].order_item_id {
        None => false,
        Some(item_id) => match find_index(&store.order_items, item_id) {
            None => false,
            Some(i) => store.order_items[i].order_id == order_id,
        },
    }
}

impl Order {
    /// Takes the lock: where the row still carries the version of this value,
    /// both versions go up by one. Otherwise another writer changed the order
    /// since it was read, and nothing changes.
    pub fn lock_version(&mut self, store: &mut Store, now: Timestamp) -> (res: Result<
        (),
        DatabaseError,
    >)
        ensures
            match spec_lock_version(old(store)@, *old(self), now) {
                Ok((s, o)) => res is Ok && final(store)@ == s && *final(self) == o,
                Err(e) => res == Err::<(), DatabaseError>(e) && final(store)@ == old(store)@
                    && *final(self) == *old(self),
            },
    {
        let i = match find_index(&store.orders, self.id) {
            Some(i) => i,
            None => {
                return Err(DatabaseError::OrderVersionMismatch);
            },
        };
        if store.orders[i].version != self.version {
            return Err(DatabaseError::OrderVersionMismatch);
        }
        if self.version == i64::MAX {
            return Err(DatabaseError::ArithmeticOverflow);
        }
        store.orders[i].version = self.version + 1;
        store.orders[i].updated_at = now;
        self.version = self.version + 1;
        assert(store@.orders =~= spec_lock_version(old(store)@, *old(self), now)->Ok_0.0.orders);
        Ok(())
    }

    /// Whether the status may move from `from` to `to`.
    pub fn status_change_allowed(from: OrderStatus, to: OrderStatus) -> (yes: bool)
        ensures
            yes == status_change_allowed(from, to),
    {
        match (from, to) {
            (OrderStatus::Draft, OrderStatus::PendingPayment) => true,
            (OrderStatus::Draft, OrderStatus::Paid) => true,
            (OrderStatus::Draft, OrderStatus::Cancelled) => true,
            (OrderStatus::PendingPayment, OrderStatus::Paid) => true,
            (OrderStatus::PendingPayment, OrderStatus::Draft) => true,
            _ => false,
        }
    }

    /// Moves the order to `status`, where the status may move so from the one
    /// that this value carries. A paid order gets `now` as its time of payment.
    pub fn update_status(
        &mut self,
        current_user_id: Option<Id>,
        status: OrderStatus,
        store: &mut Store,
        now: Timestamp,
    ) -> (res: Result<(), DatabaseError>)
        ensures
            match spec_update_status(old(store)@, *old(self), current_user_id, status, now) {
                Ok((s, o)) => res is Ok && final(store)@ == s && *final(self) == o,
                Err(e) => res == Err::<(), DatabaseError>(e) && final(store)@ == old(store)@
                    && *final(self) == *old(self),
            },
    {
        let old_status = self.status;
        if !Order::status_change_allowed(old_status, status) {
            return Err(DatabaseError::InvalidStatusChange { from: old_status, to: status });
        }
        DomainEvent::create(
            DomainEventTypes::OrderStatusUpdated,
            Tables::Orders,
            Some(self.id),
            current_user_id,
            EventData::StatusChanged { old_status, new_status: status },
            store,
            now,
        )?;
        self.status = status;
        if status == OrderStatus::Paid {
            self.paid_at = Some(now);
        }
        match find_index(&store.orders, self.id) {
            Some(i) => {
                store.orders[i].status = status;
                if status == OrderStatus::Paid {
                    store.orders[i].paid_at = Some(now);
                }
                store.orders[i].updated_at = now;
            },
            None => {},
        }
        assert(store@.orders =~= spec_update_status(
            old(store)@,
            *old(self),
            current_user_id,
            status,
            now,
        )->Ok_0.0.orders);
        Ok(())
    }

    /// Takes an order whose payment is pending back to draft. A draft stays
    /// as it is; a paid or cancelled order cannot go back.
    pub fn reset_to_draft(
        &mut self,
        current_user_id: Option<Id>,
        store: &mut Store,
        now: Timestamp,
    ) -> (res: Result<(), DatabaseError>)
        ensures
            match spec_reset_to_draft(old(store)@, *old(self), current_user_id, now) {
                Ok((s, o)) => res is Ok && final(store)@ == s && *final(self) == o,
                Err(e) => res == Err::<(), DatabaseError>(e) && final(store)@ == old(store)@
                    && *final(self) == *old(self),
            },
    {
        match self.status {
            OrderStatus::Paid => Err(DatabaseError::ResetOfPaidOrder),
            OrderStatus::Cancelled => Err(DatabaseError::ResetOfCancelledOrder),
            OrderStatus::Draft => Ok(()),
            OrderStatus::PendingPayment => self.update_status(
                current_user_id,
                OrderStatus::Draft,
                store,
                now,
            ),
        }
    }

    /// Sets the expiry of the order to `expires_at`, or to a quarter of an
    /// hour after `now` where none is given. Every instance that belongs to
    /// a line of the order, whatever its status, gets the same end of its
    /// reservation.
    pub fn set_expiry(
        &mut self,
        current_user_id: Option<Id>,
        expires_at: Option<Timestamp>,
        store: &mut Store,
        now: Timestamp,
    ) -> (res: Result<(), DatabaseError>)
        ensures
            match spec_set_expiry(old(store)@, *old(self), current_user_id, expires_at, now) {
                Ok((s, o)) => res is Ok && final(store)@ == s && *final(self) == o,
                Err(e) => res == Err::<(), DatabaseError>(e) && final(store)@ == old(store)@
                    && *final(self) == *old(self),
            },
    {
        let new_expiry = match expires_at {
            Some(t) => t,
            None => match now.checked_add(CART_EXPIRY_TIME_MINUTES * MICROS_PER_MINUTE) {
                Some(t) => t,
                None => {
                    return Err(DatabaseError::ArithmeticOverflow);
                },
            },
        };
        let i = match find_index(&store.orders, self.id) {
            Some(i) => i,
            None => {
                return Err(DatabaseError::ExpiryUpdateRace);
            },
        };
        let live = match store.orders[i].expires_at {
            Some(t) => t > now,
            None => true,
        };
        if store.orders[i].version != self.version || !live {
            return Err(DatabaseError::ExpiryUpdateRace);
        }
        let old_expiry = self.expires_at;
        DomainEvent::create(
            DomainEventTypes::OrderUpdated,
            Tables::Orders,
            Some(self.id),
            current_user_id,
            EventData::ExpiryChanged {
                old_expires_at: old_expiry,
                new_expires_at: Some(new_expiry),
            },
            store,
            now,
        )?;
        store.orders[i].expires_at = Some(new_expiry);
        store.orders[i].updated_at = now;
        self.expires_at = Some(new_expiry);
        self.updated_at = now;
        let ghost before = store@.ticket_instances;
        let ghost goal = extend_reservations(before, store@.order_items, self.id, new_expiry);
        let ghost mid = store@;
        let mut k: usize = 0;
        while k < store.ticket_instances.len()
            invariant
                k <= store.ticket_instances.len(),
                store.ticket_instances.len() == before.len(),
                forall|j: int| 0 <= j < k ==> store.ticket_instances[j] == goal[j],
                forall|j: int| k <= j < before.len() ==> store.ticket_instances[j] == before[j],
                store@ == (StoreState { ticket_instances: store@.ticket_instances, ..mid }),
                goal == extend_reservations(before, mid.order_items, self.id, new_expiry),
            decreases store.ticket_instances.len() - k,
        {
            if is_ticket_of_order(store, k, self.id) {
                store.ticket_instances[k].reserved_until = Some(new_expiry);
            }
            k += 1;
        }
        assert(store@.ticket_instances =~= goal);
        assert(store@.orders =~= spec_set_expiry(
            old(store)@,
            *old(self),
            current_user_id,
            expires_at,
            now,
        )->Ok_0.0.orders);
        Ok(())
    }

    /// Clears the expiry of the order, which must hold no item.
    pub fn remove_expiry(&mut self, current_user_id: Id, store: &mut Store, now: Timestamp) -> (res:
        Result<(), DatabaseError>)
        ensures
            match spec_remove_expiry(old(store)@, *old(self), current_user_id, now) {
                Ok((s, o)) => res is Ok && final(store)@ == s && *final(self) == o,
                Err(e) => res == Err::<(), DatabaseError>(e) && final(store)@ == old(store)@
                    && *final(self) == *old(self),
            },
    {
        if self.items(store).len() > 0 {
            return Err(DatabaseError::ExpiryOfNonEmptyCart);
        }
        let i = match find_index(&store.orders, self.id) {
            Some(i) => i,
            None => {
                return Err(DatabaseError::ExpiryUpdateRace);
            },
        };
        let live = match store.orders[i].expires_at {
            Some(t) => t > now,
            None => true,
        };
        if store.orders[i].version != self.version || !live {
            return Err(DatabaseError::ExpiryUpdateRace);
        }
        let old_expiry = self.expires_at;
        DomainEvent::create(
            DomainEventTypes::OrderUpdated,
            Tables::Orders,
            Some(self.id),
            Some(current_user_id),
            EventData::ExpiryChanged { old_expires_at: old_expiry, new_expires_at: None },
            store,
            now,
        )?;
        store.orders[i].expires_at = None;
        store.orders[i].updated_at = now;
        self.expires_at = None;
        self.updated_at = now;
        assert(store@.orders =~= spec_remove_expiry(
            old(store)@,
            *old(self),
            current_user_id,
            now,
        )->Ok_0.0.orders);
        Ok(())
    }

    /// Switches the order between box office and online prices.
    pub fn update_box_office_pricing(
        &mut self,
        box_office_pricing: bool,
        current_user_id: Id,
        store: &mut Store,
        now: Timestamp,
    ) -> (res: Result<(), DatabaseError>)
        ensures
            match spec_update_box_office_pricing(
                old(store)@,
                *old(self),
                box_office_pricing,
                current_user_id,
                now,
            ) {
                Ok((s, o)) => res is Ok && final(store)@ == s && *final(self) == o,
                Err(e) => res == Err::<(), DatabaseError>(e) && final(store)@ == old(store)@
                    && *final(self) == *old(self),
            },
    {
        let old_box_office_pricing = self.box_office_pricing;
        DomainEvent::create(
            DomainEventTypes::OrderUpdated,
            Tables::Orders,
            Some(self.id),
            Some(current_user_id),
            EventData::BoxOfficePricingChanged {
                old_box_office_pricing,
                new_box_office_pricing: box_office_pricing,
            },
            store,
            now,
        )?;
        self.box_office_pricing = box_office_pricing;
        match find_index(&store.orders, self.id) {
            Some(i) => {
                store.orders[i].box_office_pricing = box_office_pricing;
                store.orders[i].updated_at = now;
            },
            None => {},
        }
        assert(store@.orders =~= spec_update_box_office_pricing(
            old(store)@,
            *old(self),
            box_office_pricing,
            current_user_id,
            now,
        )->Ok_0.0.orders);
        Ok(())
    }

    /// The lines of the order, in table order.
    pub fn items(&self, store: &Store) -> (found: Vec<OrderItem>)
        ensures
            found@ == items_of(store@.order_items, self.id),
    {
        OrderItem::find_for_order(self.id, store)
    }

    /// Whether the order has a line.
    pub fn has_items(&self, store: &Store) -> (yes: bool)
        ensures
            yes == (items_of(store@.order_items, self.id).len() > 0),
    {
        self.items(store).len() > 0
    }

    /// The first row with the identifier `id`.
    pub fn find(id: Id, store: &Store) -> (res: Result<Order, DatabaseError>)
        ensures
            match index_of(store@.orders, id) {
                Some(i) => res == Ok::<Order, DatabaseError>(store@.orders[i]),
                None => res == Err::<Order, DatabaseError>(
                    DatabaseError::NotFound { table: Tables::Orders, id },
                ),
            },
    {
        match find_index(&store.orders, id) {
            Some(i) => Ok(store.orders[i].clone()),
            None => Err(DatabaseError::NotFound { table: Tables::Orders, id }),
        }
    }
}

} // verus!
