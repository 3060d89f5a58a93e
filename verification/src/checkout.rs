//! What checkout records on an order: who it is for, how it is paid outside
//! the system, where the buyer pays, and from which browser.

use vstd::prelude::*;
use crate::domain_events::spec_record_event;
use crate::errors::DatabaseError;
use crate::model::{DomainEvent, EventData, Order, UpdateOrderAttributes, User};
use crate::orders::{spec_lock_version, spec_set_expiry, with_order_row, Outcome};
use crate::store::{find_index, index_of, Store, StoreState};
use crate::types::{DomainEventTypes, ExternalPaymentType, Id, OrderStatus, Tables, Timestamp};

verus! {

/// The outcome with one more entry in the log about the order.
pub open spec fn logged(
    r: Outcome,
    event_type: DomainEventTypes,
    user_id: Option<Id>,
    event_data: EventData,
    now: Timestamp,
) -> Outcome {
    match r {
        Err(e) => Err(e),
        Ok((s, o)) => match spec_record_event(
            s,
            event_type,
            Tables::Orders,
            Some(o.id),
            user_id,
            event_data,
            now,
        ) {
            Err(e) => Err(e),
            Ok((s1, _)) => Ok((s1, o)),
        },
    }
}

/// Recording the browser of the buyer: after checkout where the purchase is
/// completed, before it otherwise. The order is locked.
pub open spec fn spec_set_user_agent(
    s: StoreState,
    order: Order,
    user_agent: Option<String>,
    purchase_completed: bool,
    now: Timestamp,
) -> Outcome {
    match spec_lock_version(s, order, now) {
        Err(e) => Err(e),
        Ok((s1, o1)) => {
            let o2 = if purchase_completed {
                Order { purchase_user_agent: user_agent, updated_at: now, ..o1 }
            } else {
                Order { create_user_agent: user_agent, updated_at: now, ..o1 }
            };
            Ok(
                (
                    StoreState {
                        orders: with_order_row(
                            s1.orders,
                            order.id,
                            |row: Order|
                                Order {
                                    purchase_user_agent: o2.purchase_user_agent,
                                    create_user_agent: o2.create_user_agent,
                                    updated_at: now,
                                    ..row
                                },
                        ),
                        ..s1
                    },
                    o2,
                ),
            )
        },
    }
}

/// Placing a draft order on behalf of another user. The order is locked and
/// the log tells of it.
pub open spec fn spec_set_behalf_of_user(
    s: StoreState,
    order: Order,
    user_id: Id,
    current_user_id: Id,
    now: Timestamp,
) -> Outcome {
    if order.status != OrderStatus::Draft {
        Err(DatabaseError::OrderNotDraft)
    } else {
        match spec_lock_version(s, order, now) {
            Err(e) => Err(e),
            Ok((s1, o1)) => logged(
                Ok(
                    (
                        StoreState {
                            orders: with_order_row(
                                s1.orders,
                                order.id,
                                |row: Order|
                                    Order {
                                        on_behalf_of_user_id: Some(user_id),
                                        updated_at: now,
                                        ..row
                                    },
                            ),
                            ..s1
                        },
                        Order { on_behalf_of_user_id: Some(user_id), ..o1 },
                    ),
                ),
                DomainEventTypes::OrderBehalfOfUserChanged,
                Some(current_user_id),
                EventData::BehalfOfUserChanged {
                    old_user: order.on_behalf_of_user_id,
                    new_user: user_id,
                },
                now,
            ),
        }
    }
}

/// Recording how a draft order is paid outside the system. The order is
/// locked and the log tells of it.
pub open spec fn spec_set_external_payment_type(
    s: StoreState,
    order: Order,
    external_payment_type: ExternalPaymentType,
    current_user_id: Id,
    now: Timestamp,
) -> Outcome {
    if order.status != OrderStatus::Draft {
        Err(DatabaseError::OrderNotDraft)
    } else {
        match spec_lock_version(s, order, now) {
            Err(e) => Err(e),
            Ok((s1, o1)) => logged(
                Ok(
                    (
                        StoreState {
                            orders: with_order_row(
                                s1.orders,
                                order.id,
                                |row: Order|
                                    Order {
                                        external_payment_type: Some(external_payment_type),
                                        updated_at: now,
                                        ..row
                                    },
                            ),
                            ..s1
                        },
                        Order { external_payment_type: Some(external_payment_type), ..o1 },
                    ),
                ),
                DomainEventTypes::OrderUpdated,
                Some(current_user_id),
                EventData::ExternalPaymentTypeRecorded { external_payment_type },
                now,
            ),
        }
    }
}

/// Recording where the buyer pays, and until when, on the row and on the
/// caller's value: the order expires with the address. The log tells of it.
pub open spec fn spec_add_checkout_url(
    s: StoreState,
    order: Order,
    current_user_id: Id,
    checkout_url: String,
    expires: Timestamp,
    now: Timestamp,
) -> Outcome {
    match spec_set_expiry(
        s,
        Order { checkout_url: Some(checkout_url), checkout_url_expires: Some(expires), ..order },
        Some(current_user_id),
        Some(expires),
        now,
    ) {
        Err(e) => Err(e),
        Ok((s1, o1)) => logged(
            Ok(
                (
                    StoreState {
                        orders: with_order_row(
                            s1.orders,
                            order.id,
                            |row: Order|
                                Order {
                                    checkout_url: Some(checkout_url),
                                    checkout_url_expires: Some(expires),
                                    updated_at: now,
                                    ..row
                                },
                        ),
                        ..s1
                    },
                    o1,
                ),
            ),
            DomainEventTypes::OrderUpdated,
            Some(current_user_id),
            EventData::CheckoutUrlAdded { expires },
            now,
        ),
    }
}

fn clone_agent(text: &Option<String>) -> (copy: Option<String>)
    ensures
        copy == *text,
{
    match text {
        Some(s) => Some(s.clone()),
        None => None,
    }
}

impl Order {
    /// Records the browser of the buyer on the locked order: as the one that
    /// completed the purchase, or as the one that made the cart. Where it
    /// fails, nothing changes.
    pub fn set_user_agent(
        &mut self,
        user_agent: Option<String>,
        purchase_completed: bool,
        store: &mut Store,
        now: Timestamp,
    ) -> (res: Result<(), DatabaseError>)
        ensures
            match spec_set_user_agent(old(store)@, *old(self), user_agent, purchase_completed, now) {
                Ok((s, o)) => res is Ok && final(store)@ == s && *final(self) == o,
                Err(e) => res == Err::<(), DatabaseError>(e) && final(store)@ == old(store)@
                    && *final(self) == *old(self),
            },
    {
        self.lock_version(store, now)?;
        self.updated_at = now;
        if purchase_completed {
            self.purchase_user_agent = user_agent;
        } else {
            self.create_user_agent = user_agent;
        }
        match find_index(&store.orders, self.id) {
            Some(i) => {
                store.orders[i].purchase_user_agent = clone_agent(&self.purchase_user_agent);
                store.orders[i].create_user_agent = clone_agent(&self.create_user_agent);
                store.orders[i].updated_at = now;
            },
            None => {},
        }
        assert(store@.orders =~= spec_set_user_agent(
            old(store)@,
            *old(self),
            user_agent,
            purchase_completed,
            now,
        )->Ok_0.0.orders);
        Ok(())
    }

    fn try_set_behalf_of_user(
        &mut self,
        user: User,
        current_user_id: Id,
        store: &mut Store,
        now: Timestamp,
    ) -> (res: Result<(), DatabaseError>)
        ensures
            match spec_set_behalf_of_user(old(store)@, *old(self), user.id, current_user_id, now) {
                Ok((s, o)) => res is Ok && final(store)@ == s && *final(self) == o,
                Err(e) => res == Err::<(), DatabaseError>(e),
            },
    {
        if self.status != OrderStatus::Draft {
            return Err(DatabaseError::OrderNotDraft);
        }
        self.lock_version(store, now)?;
        let old_user = self.on_behalf_of_user_id;
        self.on_behalf_of_user_id = Some(user.id);
        match find_index(&store.orders, self.id) {
            Some(i) => {
                store.orders[i].on_behalf_of_user_id = Some(user.id);
                store.orders[i].updated_at = now;
            },
            None => {},
        }
        let ghost want = with_order_row(
            spec_lock_version(old(store)@, *old(self), now)->Ok_0.0.orders,
            self.id,
            |row: Order| Order { on_behalf_of_user_id: Some(user.id), updated_at: now, ..row },
        );
        assert(store@.orders =~= want);
        DomainEvent::create(
            DomainEventTypes::OrderBehalfOfUserChanged,
            Tables::Orders,
            Some(self.id),
            Some(current_user_id),
            EventData::BehalfOfUserChanged { old_user, new_user: user.id },
            store,
            now,
        )?;
        Ok(())
    }

    /// Places a draft order on behalf of `user`. Where it fails, nothing
    /// changes.
    pub fn set_behalf_of_user(
        &mut self,
        user: User,
        current_user_id: Id,
        store: &mut Store,
        now: Timestamp,
    ) -> (res: Result<(), DatabaseError>)
        ensures
            match spec_set_behalf_of_user(old(store)@, *old(self), user.id, current_user_id, now) {
                Ok((s, o)) => res is Ok && final(store)@ == s && *final(self) == o,
                Err(e) => res == Err::<(), DatabaseError>(e) && final(store)@ == old(store)@
                    && *final(self) == *old(self),
            },
    {
        let saved = store.snapshot();
        let before = self.clone();
        let res = self.try_set_behalf_of_user(user, current_user_id, store, now);
        if res.is_err() {
            *store = saved;
            *self = before;
        }
        res
    }

    pub(crate) fn try_set_external_payment_type(
        &mut self,
        external_payment_type: ExternalPaymentType,
        current_user_id: Id,
        store: &mut Store,
        now: Timestamp,
    ) -> (res: Result<(), DatabaseError>)
        ensures
            match spec_set_external_payment_type(
                old(store)@,
                *old(self),
                external_payment_type,
                current_user_id,
                now,
            ) {
                Ok((s, o)) => res is Ok && final(store)@ == s && *final(self) == o,
                Err(e) => res == Err::<(), DatabaseError>(e),
            },
    {
        if self.status != OrderStatus::Draft {
            return Err(DatabaseError::OrderNotDraft);
        }
        self.lock_version(store, now)?;
        self.external_payment_type = Some(external_payment_type);
        match find_index(&store.orders, self.id) {
            Some(i) => {
                store.orders[i].external_payment_type = Some(external_payment_type);
                store.orders[i].updated_at = now;
            },
            None => {},
        }
        let ghost want = with_order_row(
            spec_lock_version(old(store)@, *old(self), now)->Ok_0.0.orders,
            self.id,
            |row: Order|
                Order { external_payment_type: Some(external_payment_type), updated_at: now, ..row },
        );
        assert(store@.orders =~= want);
        DomainEvent::create(
            DomainEventTypes::OrderUpdated,
            Tables::Orders,
            Some(self.id),
            Some(current_user_id),
            EventData::ExternalPaymentTypeRecorded { external_payment_type },
            store,
            now,
        )?;
        Ok(())
    }

    /// Records how a draft order is paid outside the system. Where it fails,
    /// nothing changes.
    pub fn set_external_payment_type(
        &mut self,
        external_payment_type: ExternalPaymentType,
        current_user_id: Id,
        store: &mut Store,
        now: Timestamp,
    ) -> (res: Result<(), DatabaseError>)
        ensures
            match spec_set_external_payment_type(
                old(store)@,
                *old(self),
                external_payment_type,
                current_user_id,
                now,
            ) {
                Ok((s, o)) => res is Ok && final(store)@ == s && *final(self) == o,
                Err(e) => res == Err::<(), DatabaseError>(e) && final(store)@ == old(store)@
                    && *final(self) == *old(self),
            },
    {
        let saved = store.snapshot();
        let before = self.clone();
        let res = self.try_set_external_payment_type(
            external_payment_type,
            current_user_id,
            store,
            now,
        );
        if res.is_err() {
            *store = saved;
            *self = before;
        }
        res
    }

    fn try_add_checkout_url(
        &mut self,
        current_user_id: Id,
        checkout_url: String,
        expires: Timestamp,
        store: &mut Store,
        now: Timestamp,
    ) -> (res: Result<(), DatabaseError>)
        ensures
            match spec_add_checkout_url(
                old(store)@,
                *old(self),
                current_user_id,
                checkout_url,
                expires,
                now,
            ) {
                Ok((s, o)) => res is Ok && final(store)@ == s && *final(self) == o,
                Err(e) => res == Err::<(), DatabaseError>(e),
            },
    {
        self.checkout_url = Some(checkout_url.clone());
        self.checkout_url_expires = Some(expires);
        self.set_expiry(Some(current_user_id), Some(expires), store, now)?;
        let ghost s1 = store@;
        match find_index(&store.orders, self.id) {
            Some(i) => {
                store.orders[i].checkout_url = Some(checkout_url);
                store.orders[i].checkout_url_expires = Some(expires);
                store.orders[i].updated_at = now;
            },
            None => {},
        }
        let ghost want = with_order_row(
            s1.orders,
            self.id,
            |row: Order|
                Order {
                    checkout_url: Some(checkout_url),
                    checkout_url_expires: Some(expires),
                    updated_at: now,
                    ..row
                },
        );
        assert(store@.orders =~= want);
        DomainEvent::create(
            DomainEventTypes::OrderUpdated,
            Tables::Orders,
            Some(self.id),
            Some(current_user_id),
            EventData::CheckoutUrlAdded { expires },
            store,
            now,
        )?;
        Ok(())
    }

    /// Records the address at which the buyer pays and lets the order expire
    /// with it. Where it fails, nothing changes.
    pub fn add_checkout_url(
        &mut self,
        current_user_id: Id,
        checkout_url: String,
        expires: Timestamp,
        store: &mut Store,
        now: Timestamp,
    ) -> (res: Result<(), DatabaseError>)
        ensures
            match spec_add_checkout_url(
                old(store)@,
                *old(self),
                current_user_id,
                checkout_url,
                expires,
                now,
            ) {
                Ok((s, o)) => res is Ok && final(store)@ == s && *final(self) == o,
                Err(e) => res == Err::<(), DatabaseError>(e) && final(store)@ == old(store)@
                    && *final(self) == *old(self),
            },
    {
        let saved = store.snapshot();
        let before = self.clone();
        let res = self.try_add_checkout_url(current_user_id, checkout_url, expires, store, now);
        if res.is_err() {
            *store = saved;
            *self = before;
        }
        res
    }
}

/// The note of a row after the change: what the caller gives, or the note
/// as it is where the caller gives nothing.
pub open spec fn changed_note(note: Option<String>, attrs: UpdateOrderAttributes) -> Option<String> {
    match attrs.note {
        Some(given) => given,
        None => note,
    }
}

/// A change of the note of an order: the log tells of it, the row gets the
/// note, and the row as it then stands is given back.
pub open spec fn spec_update(
    s: StoreState,
    order: Order,
    attrs: UpdateOrderAttributes,
    current_user_id: Id,
    now: Timestamp,
) -> Outcome {
    match index_of(s.orders, order.id) {
        None => Err(DatabaseError::NotFound { table: Tables::Orders, id: order.id }),
        Some(i) => {
            let row = Order {
                note: changed_note(s.orders[i].note, attrs),
                updated_at: now,
                ..s.orders[i]
            };
            logged(
                Ok((StoreState { orders: s.orders.update(i, row), ..s }, row)),
                DomainEventTypes::OrderUpdated,
                Some(current_user_id),
                EventData::NoteChanged,
                now,
            )
        },
    }
}

impl Order {
    /// Changes the note of the order and gives the row as it then stands.
    /// Where it fails, nothing changes.
    pub fn update(
        self,
        attrs: UpdateOrderAttributes,
        current_user_id: Id,
        store: &mut Store,
        now: Timestamp,
    ) -> (res: Result<Order, DatabaseError>)
        ensures
            match spec_update(old(store)@, self, attrs, current_user_id, now) {
                Ok((s, row)) => res == Ok::<Order, DatabaseError>(row) && final(store)@ == s,
                Err(e) => res == Err::<Order, DatabaseError>(e) && final(store)@ == old(store)@,
            },
    {
        let i = match find_index(&store.orders, self.id) {
            Some(i) => i,
            None => {
                return Err(DatabaseError::NotFound { table: Tables::Orders, id: self.id });
            },
        };
        DomainEvent::create(
            DomainEventTypes::OrderUpdated,
            Tables::Orders,
            Some(self.id),
            Some(current_user_id),
            EventData::NoteChanged,
            store,
            now,
        )?;
        match attrs.note {
            Some(given) => {
                store.orders[i].note = given;
            },
            None => {},
        }
        store.orders[i].updated_at = now;
        let row = store.orders[i].clone();
        assert(store@.orders =~= old(store)@.orders.update(i as int, row));
        Ok(row)
    }
}

} // verus!
