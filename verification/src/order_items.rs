//! The lines of an order, as rows of the store.
//!
//! The table keeps one constraint: no row holds more refunded units than
//! units. A write that would break it fails.

use vstd::prelude::*;
use crate::errors::DatabaseError;
use crate::inventory::linked_count;
use crate::model::{OrderItem, TicketInstance};
use crate::store::{index_of, find_index, Store, StoreState};
use crate::types::{Id, OrderItemTypes, Tables};

verus! {

/// The constraint of the table on one row.
pub open spec fn item_constraint(item: OrderItem) -> bool {
    0 <= item.refunded_quantity <= item.quantity
}

/// Every row meets the constraint of the table.
pub open spec fn items_valid(items: Seq<OrderItem>) -> bool {
    forall|i: int| 0 <= i < items.len() ==> item_constraint(#[trigger] items[i])
}

/// The rows among the first `k` that belong to `order_id`, in table order.
pub open spec fn items_of_upto(items: Seq<OrderItem>, order_id: Id, k: int) -> Seq<OrderItem>
    decreases k,
{
    if k <= 0 {
        Seq::empty()
    } else {
        let rest = items_of_upto(items, order_id, k - 1);
        if items[k - 1].order_id == order_id {
            rest.push(items[k - 1])
        } else {
            rest
        }
    }
}

/// The rows that belong to `order_id`, in table order.
pub open spec fn items_of(items: Seq<OrderItem>, order_id: Id) -> Seq<OrderItem> {
    items_of_upto(items, order_id, items.len() as int)
}

/// Whether a row stays when the item `id` is deleted with its children.
pub open spec fn survives(item: OrderItem, id: Id) -> bool {
    item.id != id && item.parent_id != Some(id)
}

/// The rows among the first `k` that stay when the item `id` is deleted.
pub open spec fn without_item_upto(items: Seq<OrderItem>, id: Id, k: int) -> Seq<OrderItem>
    decreases k,
{
    if k <= 0 {
        Seq::empty()
    } else {
        let rest = without_item_upto(items, id, k - 1);
        if survives(items[k - 1], id) {
            rest.push(items[k - 1])
        } else {
            rest
        }
    }
}

/// The table after the item `id` was deleted with its children.
pub open spec fn without_item(items: Seq<OrderItem>, id: Id) -> Seq<OrderItem> {
    without_item_upto(items, id, items.len() as int)
}

/// The index of the first child of `parent_id` with the type `item_type`, at or
/// after `from`.
pub open spec fn child_from(
    items: Seq<OrderItem>,
    parent_id: Id,
    item_type: OrderItemTypes,
    from: int,
) -> Option<int>
    decreases items.len() - from,
{
    if from < 0 || from >= items.len() {
        None
    } else if items[from].parent_id == Some(parent_id) && items[from].item_type == item_type {
        Some(from)
    } else {
        child_from(items, parent_id, item_type, from + 1)
    }
}

/// The index of the first child of `parent_id` with the type `item_type`.
pub open spec fn child_of(items: Seq<OrderItem>, parent_id: Id, item_type: OrderItemTypes) -> Option<
    int,
> {
    child_from(items, parent_id, item_type, 0)
}

/// Where `child_of` finds a row, it is a child of that type within the table.
pub proof fn lemma_child_from(
    items: Seq<OrderItem>,
    parent_id: Id,
    item_type: OrderItemTypes,
    from: int,
)
    requires
        0 <= from,
    ensures
        match child_from(items, parent_id, item_type, from) {
            Some(i) => from <= i < items.len() && items[i].parent_id == Some(parent_id)
                && items[i].item_type == item_type,
            None => forall|j: int|
                from <= j < items.len() ==> !(items[j].parent_id == Some(parent_id)
                    && items[j].item_type == item_type),
        },
    decreases items.len() - from,
{
    if from < items.len() && !(items[from].parent_id == Some(parent_id) && items[from].item_type
        == item_type) {
        lemma_child_from(items, parent_id, item_type, from + 1);
    }
}

/// The table after the quantity, unit price and refunded quantity of `item`
/// were written to its row. Without such a row nothing changes.
pub open spec fn spec_update_item(items: Seq<OrderItem>, item: OrderItem) -> Result<
    Seq<OrderItem>,
    DatabaseError,
> {
    if !item_constraint(item) {
        Err(DatabaseError::RefundedQuantityConstraint)
    } else {
        match index_of(items, item.id) {
            None => Ok(items),
            Some(i) => Ok(
                items.update(
                    i,
                    OrderItem {
                        quantity: item.quantity,
                        unit_price_in_cents: item.unit_price_in_cents,
                        refunded_quantity: item.refunded_quantity,
                        ..items[i]
                    },
                ),
            ),
        }
    }
}

/// The table after `item` was added as its last row.
pub open spec fn spec_insert_item(items: Seq<OrderItem>, item: OrderItem) -> Result<
    Seq<OrderItem>,
    DatabaseError,
> {
    if !item_constraint(item) {
        Err(DatabaseError::RefundedQuantityConstraint)
    } else {
        Ok(items.push(item))
    }
}

fn is_parent(parent_id: Option<Id>, id: Id) -> (yes: bool)
    ensures
        yes == (parent_id == Some(id)),
{
    match parent_id {
        Some(p) => p == id,
        None => false,
    }
}

impl OrderItem {
    /// The first row with the identifier `id`.
    pub fn find(id: Id, store: &Store) -> (res: Result<OrderItem, DatabaseError>)
        ensures
            match index_of(store@.order_items, id) {
                Some(i) => res == Ok::<OrderItem, DatabaseError>(store@.order_items[i]),
                None => res == Err::<OrderItem, DatabaseError>(
                    DatabaseError::NotFound { table: Tables::OrderItems, id },
                ),
            },
    {
        match find_index(&store.order_items, id) {
            Some(i) => Ok(store.order_items[i]),
            None => Err(DatabaseError::NotFound { table: Tables::OrderItems, id }),
        }
    }

    /// The rows that belong to the order `order_id`, in table order.
    pub fn find_for_order(order_id: Id, store: &Store) -> (found: Vec<OrderItem>)
        ensures
            found@ == items_of(store@.order_items, order_id),
    {
        let mut found: Vec<OrderItem> = Vec::new();
        let mut k: usize = 0;
        while k < store.order_items.len()
            invariant
                k <= store.order_items.len(),
                found@ == items_of_upto(store@.order_items, order_id, k as int),
            decreases store.order_items.len() - k,
        {
            if store.order_items[k].order_id == order_id {
                found.push(store.order_items[k]);
            }
            k += 1;
        }
        found
    }

    /// The first child of this item with the type `item_type`.
    pub fn find_child(&self, item_type: OrderItemTypes, store: &Store) -> (found: Option<OrderItem>)
        ensures
            match child_of(store@.order_items, self.id, item_type) {
                Some(i) => 0 <= i < store@.order_items.len() && found == Some(store@.order_items[i]),
                None => found is None,
            },
    {
        let mut k: usize = 0;
        while k < store.order_items.len()
            invariant
                k <= store.order_items.len(),
                child_from(store@.order_items, self.id, item_type, k as int) == child_of(
                    store@.order_items,
                    self.id,
                    item_type,
                ),
            decreases store.order_items.len() - k,
        {
            if is_parent(store.order_items[k].parent_id, self.id) && store.order_items[k].item_type
                == item_type {
                return Some(store.order_items[k]);
            }
            k += 1;
        }
        None
    }

    /// The per-unit fee line of this item, if it has one.
    pub fn find_fee_item(&self, store: &Store) -> (found: Option<OrderItem>)
        ensures
            match child_of(store@.order_items, self.id, OrderItemTypes::PerUnitFees) {
                Some(i) => 0 <= i < store@.order_items.len() && found == Some(store@.order_items[i]),
                None => found is None,
            },
    {
        self.find_child(OrderItemTypes::PerUnitFees, store)
    }

    /// The discount line of this item, if it has one.
    pub fn find_discount_item(&self, store: &Store) -> (found: Option<OrderItem>)
        ensures
            match child_of(store@.order_items, self.id, OrderItemTypes::Discount) {
                Some(i) => 0 <= i < store@.order_items.len() && found == Some(store@.order_items[i]),
                None => found is None,
            },
    {
        self.find_child(OrderItemTypes::Discount, store)
    }

    /// Writes the quantity, the unit price and the refunded quantity of this
    /// item to its row. Fails, and changes nothing, where the row would hold
    /// more refunded units than units.
    pub fn update(&self, store: &mut Store) -> (res: Result<(), DatabaseError>)
        ensures
            match spec_update_item(old(store)@.order_items, *self) {
                Ok(items) => res is Ok && final(store)@ == (StoreState {
                    order_items: items,
                    ..old(store)@
                }),
                Err(e) => res == Err::<(), DatabaseError>(e) && final(store)@ == old(store)@,
            },
    {
        if self.refunded_quantity < 0 || self.refunded_quantity > self.quantity {
            return Err(DatabaseError::RefundedQuantityConstraint);
        }
        match find_index(&store.order_items, self.id) {
            Some(i) => {
                store.order_items[i].quantity = self.quantity;
                store.order_items[i].unit_price_in_cents = self.unit_price_in_cents;
                store.order_items[i].refunded_quantity = self.refunded_quantity;
                assert(store@.order_items =~= spec_update_item(old(store)@.order_items, *self)->Ok_0);
            },
            None => {},
        }
        Ok(())
    }

    /// Adds this item as the last row of the table. Fails, and changes
    /// nothing, where the row would hold more refunded units than units.
    pub fn insert(self, store: &mut Store) -> (res: Result<(), DatabaseError>)
        ensures
            match spec_insert_item(old(store)@.order_items, self) {
                Ok(items) => res is Ok && final(store)@ == (StoreState {
                    order_items: items,
                    ..old(store)@
                }),
                Err(e) => res == Err::<(), DatabaseError>(e) && final(store)@ == old(store)@,
            },
    {
        if self.refunded_quantity < 0 || self.refunded_quantity > self.quantity {
            return Err(DatabaseError::RefundedQuantityConstraint);
        }
        store.order_items.push(self);
        Ok(())
    }

    /// Deletes the item `id` and its children.
    pub fn destroy(id: Id, store: &mut Store)
        ensures
            final(store)@ == (StoreState {
                order_items: without_item(old(store)@.order_items, id),
                ..old(store)@
            }),
    {
        let mut kept: Vec<OrderItem> = Vec::new();
        let mut k: usize = 0;
        while k < store.order_items.len()
            invariant
                k <= store.order_items.len(),
                kept@ == without_item_upto(store@.order_items, id, k as int),
            decreases store.order_items.len() - k,
        {
            let item = store.order_items[k];
            if item.id != id && !is_parent(item.parent_id, id) {
                kept.push(item);
            }
            k += 1;
        }
        store.order_items = kept;
    }

    /// How many ticket instances belong to this item, whatever their status.
    pub fn calculate_quantity(&self, store: &Store) -> (count: usize)
        ensures
            count == linked_count(store@.ticket_instances, self.id),
    {
        TicketInstance::count_for_order_item(self.id, store)
    }
}

} // verus!
