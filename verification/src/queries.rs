//! What can be asked of an order: its event, a line, its tickets.

use vstd::prelude::*;
use crate::errors::DatabaseError;
use crate::model::{Event, Order, OrderItem, TicketInstance};
use crate::payments::{clear_user_cart, spec_clear_user_cart};
use crate::store::{Catalog, Store, StoreState};
use crate::types::{Id, OrderItemTypes, Tables, Timestamp};

verus! {

/// The index of the first line of the order at or after `from` that belongs
/// to an event.
pub open spec fn event_line_from(items: Seq<OrderItem>, order_id: Id, from: int) -> Option<int>
    decreases items.len() - from,
{
    if from < 0 || from >= items.len() {
        None
    } else if items[from].order_id == order_id && items[from].event_id is Some {
        Some(from)
    } else {
        event_line_from(items, order_id, from + 1)
    }
}

/// Whether the row is the ticket line `item_id` of the order.
pub open spec fn is_cart_item(item: OrderItem, order_id: Id, item_id: Id) -> bool {
    item.order_id == order_id && item.id == item_id && item.item_type == OrderItemTypes::Tickets
}

/// The index of the first row at or after `from` that is the ticket line
/// `item_id` of the order.
pub open spec fn cart_item_from(items: Seq<OrderItem>, order_id: Id, item_id: Id, from: int) -> Option<
    int,
>
    decreases items.len() - from,
{
    if from < 0 || from >= items.len() {
        None
    } else if is_cart_item(items[from], order_id, item_id) {
        Some(from)
    } else {
        cart_item_from(items, order_id, item_id, from + 1)
    }
}

/// Whether the row is a line of the order of the type `item_type` for the
/// ticket type.
pub open spec fn line_of_type(
    item: OrderItem,
    order_id: Id,
    ticket_type_id: Id,
    item_type: OrderItemTypes,
) -> bool {
    item.order_id == order_id && item.ticket_type_id == Some(ticket_type_id) && item.item_type
        == item_type
}

/// The index of the last row among the first `k` that is such a line.
pub open spec fn last_line_of_type(
    items: Seq<OrderItem>,
    order_id: Id,
    ticket_type_id: Id,
    item_type: OrderItemTypes,
    k: int,
) -> Option<int>
    decreases k,
{
    if k <= 0 {
        None
    } else if line_of_type(items[k - 1], order_id, ticket_type_id, item_type) {
        Some(k - 1)
    } else {
        last_line_of_type(items, order_id, ticket_type_id, item_type, k - 1)
    }
}

/// The tickets among the first `k` that belong to the line `order_item_id`.
pub open spec fn tickets_of_item_upto(ts: Seq<TicketInstance>, order_item_id: Id, k: int) -> Seq<
    TicketInstance,
>
    decreases k,
{
    if k <= 0 {
        Seq::empty()
    } else {
        let rest = tickets_of_item_upto(ts, order_item_id, k - 1);
        if ts[k - 1].order_item_id == Some(order_item_id) {
            rest.push(ts[k - 1])
        } else {
            rest
        }
    }
}

/// The tickets of the ticket lines of the order for the ticket type among
/// the first `k` rows of the line table: line by line, and for each line in
/// the order of the ticket table.
pub open spec fn tickets_of_lines_upto(
    s: StoreState,
    order_id: Id,
    ticket_type_id: Id,
    k: int,
) -> Seq<TicketInstance>
    decreases k,
{
    if k <= 0 {
        Seq::empty()
    } else {
        let rest = tickets_of_lines_upto(s, order_id, ticket_type_id, k - 1);
        if line_of_type(s.order_items[k - 1], order_id, ticket_type_id, OrderItemTypes::Tickets) {
            rest + tickets_of_item_upto(
                s.ticket_instances,
                s.order_items[k - 1].id,
                s.ticket_instances.len() as int,
            )
        } else {
            rest
        }
    }
}

/// How many of the first `k` order rows carry the identifier.
pub open spec fn order_rows_before(s: StoreState, order_id: Id, k: int) -> nat
    decreases k,
{
    if k <= 0 {
        0
    } else {
        order_rows_before(s, order_id, k - 1) + if s.orders[k - 1].id == order_id {
            1nat
        } else {
            0nat
        }
    }
}

/// The order rows among the first `k` that do not carry the identifier.
pub open spec fn other_orders_upto(orders: Seq<Order>, order_id: Id, k: int) -> Seq<Order>
    decreases k,
{
    if k <= 0 {
        Seq::empty()
    } else {
        let rest = other_orders_upto(orders, order_id, k - 1);
        if orders[k - 1].id == order_id {
            rest
        } else {
            rest.push(orders[k - 1])
        }
    }
}

fn same_ticket_type(a: Option<Id>, b: Id) -> (yes: bool)
    ensures
        yes == (a == Some(b)),
{
    match a {
        Some(x) => x == b,
        None => false,
    }
}

impl TicketInstance {
    /// The tickets that belong to the line `order_item_id`, in table order.
    pub fn find_for_order_item(order_item_id: Id, store: &Store) -> (found: Vec<TicketInstance>)
        ensures
            found@ == tickets_of_item_upto(
                store@.ticket_instances,
                order_item_id,
                store@.ticket_instances.len() as int,
            ),
    {
        let mut found: Vec<TicketInstance> = Vec::new();
        let mut k: usize = 0;
        while k < store.ticket_instances.len()
            invariant
                k <= store.ticket_instances.len(),
                found@ == tickets_of_item_upto(store@.ticket_instances, order_item_id, k as int),
            decreases store.ticket_instances.len() - k,
        {
            if same_ticket_type(store.ticket_instances[k].order_item_id, order_item_id) {
                found.push(store.ticket_instances[k]);
            }
            k += 1;
        }
        found
    }
}

impl Order {
    /// The event of the first line of the order that belongs to one.
    pub fn main_event_id(&self, store: &Store) -> (res: Result<Id, DatabaseError>)
        ensures
            match event_line_from(store@.order_items, self.id, 0) {
                Some(i) => 0 <= i < store@.order_items.len() && res == Ok::<Id, DatabaseError>(
                    store@.order_items[i].event_id->0,
                ),
                None => res == Err::<Id, DatabaseError>(DatabaseError::NoEventForOrder),
            },
    {
        let mut k: usize = 0;
        while k < store.order_items.len()
            invariant
                k <= store.order_items.len(),
                event_line_from(store@.order_items, self.id, k as int) == event_line_from(
                    store@.order_items,
                    self.id,
                    0,
                ),
            decreases store.order_items.len() - k,
        {
            if store.order_items[k].order_id == self.id {
                match store.order_items[k].event_id {
                    Some(event_id) => {
                        return Ok(event_id);
                    },
                    None => {},
                }
            }
            k += 1;
        }
        Err(DatabaseError::NoEventForOrder)
    }

    /// The ticket line `cart_item_id` of the order.
    pub fn find_item(&self, cart_item_id: Id, store: &Store) -> (res: Result<
        OrderItem,
        DatabaseError,
    >)
        ensures
            match cart_item_from(store@.order_items, self.id, cart_item_id, 0) {
                Some(i) => 0 <= i < store@.order_items.len() && res == Ok::<
                    OrderItem,
                    DatabaseError,
                >(store@.order_items[i]),
                None => res == Err::<OrderItem, DatabaseError>(
                    DatabaseError::NotFound { table: Tables::OrderItems, id: cart_item_id },
                ),
            },
    {
        let mut k: usize = 0;
        while k < store.order_items.len()
            invariant
                k <= store.order_items.len(),
                cart_item_from(store@.order_items, self.id, cart_item_id, k as int)
                    == cart_item_from(store@.order_items, self.id, cart_item_id, 0),
            decreases store.order_items.len() - k,
        {
            let item = store.order_items[k];
            if item.order_id == self.id && item.id == cart_item_id && item.item_type
                == OrderItemTypes::Tickets {
                return Ok(item);
            }
            k += 1;
        }
        Err(DatabaseError::NotFound { table: Tables::OrderItems, id: cart_item_id })
    }

    /// The last line of the order of the type `item_type` for the ticket type.
    pub fn find_item_by_type(
        &self,
        ticket_type_id: Id,
        item_type: OrderItemTypes,
        store: &Store,
    ) -> (res: Result<OrderItem, DatabaseError>)
        ensures
            match last_line_of_type(
                store@.order_items,
                self.id,
                ticket_type_id,
                item_type,
                store@.order_items.len() as int,
            ) {
                Some(i) => 0 <= i < store@.order_items.len() && res == Ok::<
                    OrderItem,
                    DatabaseError,
                >(store@.order_items[i]),
                None => res == Err::<OrderItem, DatabaseError>(
                    DatabaseError::NotFound { table: Tables::OrderItems, id: ticket_type_id },
                ),
            },
    {
        let mut last: Option<usize> = None;
        let mut k: usize = 0;
        while k < store.order_items.len()
            invariant
                k <= store.order_items.len(),
                match last {
                    Some(i) => i < k && last_line_of_type(
                        store@.order_items,
                        self.id,
                        ticket_type_id,
                        item_type,
                        k as int,
                    ) == Some(i as int),
                    None => last_line_of_type(
                        store@.order_items,
                        self.id,
                        ticket_type_id,
                        item_type,
                        k as int,
                    ) is None,
                },
            decreases store.order_items.len() - k,
        {
            let item = &store.order_items[k];
            if item.order_id == self.id && same_ticket_type(item.ticket_type_id, ticket_type_id)
                && item.item_type == item_type {
                last = Some(k);
            }
            k += 1;
        }
        match last {
            Some(i) => Ok(store.order_items[i]),
            None => Err(DatabaseError::NotFound { table: Tables::OrderItems, id: ticket_type_id }),
        }
    }

    /// The tickets that belong to the ticket lines of the order for the
    /// ticket type: line by line, and for each line in table order.
    pub fn tickets(&self, ticket_type_id: Id, store: &Store) -> (found: Vec<TicketInstance>)
        ensures
            found@ == tickets_of_lines_upto(
                store@,
                self.id,
                ticket_type_id,
                store@.order_items.len() as int,
            ),
    {
        let mut found: Vec<TicketInstance> = Vec::new();
        let mut k: usize = 0;
        while k < store.order_items.len()
            invariant
                k <= store.order_items.len(),
                found@ == tickets_of_lines_upto(store@, self.id, ticket_type_id, k as int),
            decreases store.order_items.len() - k,
        {
            let item = store.order_items[k];
            if item.order_id == self.id && same_ticket_type(item.ticket_type_id, ticket_type_id)
                && item.item_type == OrderItemTypes::Tickets {
                let mut more = TicketInstance::find_for_order_item(item.id, store);
                found.append(&mut more);
            }
            k += 1;
        }
        found
    }

    /// Deletes the order: every row that carries its identifier. The user
    /// whose cart it is loses the pointer to it. Gives the number of rows
    /// deleted.
    pub fn destroy(&self, store: &mut Store, now: Timestamp) -> (deleted: usize)
        ensures
            final(store)@ == (StoreState {
                users: spec_clear_user_cart(old(store)@.users, self.id, now),
                orders: other_orders_upto(
                    old(store)@.orders,
                    self.id,
                    old(store)@.orders.len() as int,
                ),
                ..old(store)@
            }),
            deleted == order_rows_before(old(store)@, self.id, old(store)@.orders.len() as int),
    {
        clear_user_cart(self.id, store, now);
        let mut kept: Vec<Order> = Vec::new();
        let mut deleted: usize = 0;
        let mut k: usize = 0;
        while k < store.orders.len()
            invariant
                k <= store.orders.len(),
                store@.orders == old(store)@.orders,
                store@ == (StoreState {
                    users: spec_clear_user_cart(old(store)@.users, self.id, now),
                    ..old(store)@
                }),
                deleted <= k,
                deleted == order_rows_before(old(store)@, self.id, k as int),
                kept@ == other_orders_upto(old(store)@.orders, self.id, k as int),
            decreases store.orders.len() - k,
        {
            if store.orders[k].id == self.id {
                deleted += 1;
            } else {
                kept.push(store.orders[k].clone());
            }
            k += 1;
        }
        store.orders = kept;
        deleted
    }
}

/// Whether a line of the order belongs to the event.
pub open spec fn order_has_event(items: Seq<OrderItem>, order_id: Id, event_id: Id) -> bool {
    exists|i: int|
        0 <= i < items.len() && (#[trigger] items[i]).order_id == order_id && items[i].event_id
            == Some(event_id)
}

/// The events among the first `k` of the catalog that a line of the order
/// belongs to, in the order of the catalog.
pub open spec fn events_of_order_upto(
    events: Seq<Event>,
    items: Seq<OrderItem>,
    order_id: Id,
    k: int,
) -> Seq<Event>
    decreases k,
{
    if k <= 0 {
        Seq::empty()
    } else {
        let rest = events_of_order_upto(events, items, order_id, k - 1);
        if order_has_event(items, order_id, events[k - 1].id) {
            rest.push(events[k - 1])
        } else {
            rest
        }
    }
}

fn has_event(store: &Store, order_id: Id, event_id: Id) -> (yes: bool)
    ensures
        yes == order_has_event(store@.order_items, order_id, event_id),
{
    let mut k: usize = 0;
    while k < store.order_items.len()
        invariant
            k <= store.order_items.len(),
            forall|i: int|
                0 <= i < k ==> !((#[trigger] store@.order_items[i]).order_id == order_id
                    && store@.order_items[i].event_id == Some(event_id)),
        decreases store.order_items.len() - k,
    {
        if store.order_items[k].order_id == order_id && same_ticket_type(
            store.order_items[k].event_id,
            event_id,
        ) {
            return true;
        }
        k += 1;
    }
    false
}

impl OrderItem {
    /// The type of the line.
    pub fn item_type(&self) -> (item_type: OrderItemTypes)
        ensures
            item_type == self.item_type,
    {
        self.item_type
    }
}

impl Order {
    /// The events that the lines of the order belong to, each once, in the
    /// order of the catalog.
    pub fn events(&self, catalog: &Catalog, store: &Store) -> (found: Vec<Event>)
        ensures
            found@ == events_of_order_upto(
                catalog@.events,
                store@.order_items,
                self.id,
                catalog@.events.len() as int,
            ),
    {
        let mut found: Vec<Event> = Vec::new();
        let mut k: usize = 0;
        while k < catalog.events.len()
            invariant
                k <= catalog.events.len(),
                found@ == events_of_order_upto(
                    catalog@.events,
                    store@.order_items,
                    self.id,
                    k as int,
                ),
            decreases catalog.events.len() - k,
        {
            if has_event(store, self.id, catalog.events[k].id) {
                found.push(catalog.events[k]);
            }
            k += 1;
        }
        found
    }
}

} // verus!
