//! Refunds: one unit of a line at a time, and for ticket lines one ticket at
//! a time. Which parts of a ticket were refunded is kept per ticket, so that
//! no part is refunded twice.

use vstd::prelude::*;
use crate::errors::DatabaseError;
use crate::inventory::released_row;
use crate::model::{Order, OrderItem, RefundItem, RefundedTicket, TicketInstance};
use crate::order_items::{child_of, spec_update_item};
use crate::store::{find_index, index_of, take_id, Store, StoreState};
use crate::types::{Id, OrderItemTypes, OrderStatus, Tables, TicketInstanceStatus, Timestamp};

verus! {

/// The index of the first refund record at or after `from` for the ticket.
pub open spec fn refund_record_from(rts: Seq<RefundedTicket>, ticket_instance_id: Id, from: int) -> Option<
    int,
>
    decreases rts.len() - from,
{
    if from < 0 || from >= rts.len() {
        None
    } else if rts[from].ticket_instance_id == ticket_instance_id {
        Some(from)
    } else {
        refund_record_from(rts, ticket_instance_id, from + 1)
    }
}

/// The index of the first refund record for the ticket.
pub open spec fn refund_record(rts: Seq<RefundedTicket>, ticket_instance_id: Id) -> Option<int> {
    refund_record_from(rts, ticket_instance_id, 0)
}

/// The refund record of the ticket, made where there is none.
pub open spec fn spec_find_or_create_record(s: StoreState, ticket: TicketInstance) -> Result<
    (StoreState, RefundedTicket),
    DatabaseError,
> {
    match refund_record(s.refunded_tickets, ticket.id) {
        Some(i) => Ok((s, s.refunded_tickets[i])),
        None => match take_id(s) {
            None => Err(DatabaseError::IdentifiersExhausted),
            Some((s1, id)) => {
                let record = RefundedTicket {
                    id,
                    order_item_id: ticket.order_item_id,
                    ticket_instance_id: ticket.id,
                    fee_refunded_at: None,
                    ticket_refunded_at: None,
                };
                Ok((StoreState { refunded_tickets: s1.refunded_tickets.push(record), ..s1 }, record))
            },
        },
    }
}

/// The record after a refund at `now`: of the fee, and of the ticket unless
/// only the fee is refunded.
pub open spec fn marked(record: RefundedTicket, only_refund_fees: bool, now: Timestamp) -> RefundedTicket {
    RefundedTicket {
        fee_refunded_at: Some(now),
        ticket_refunded_at: if only_refund_fees {
            record.ticket_refunded_at
        } else {
            Some(now)
        },
        ..record
    }
}

/// The refund records after the record of the ticket was marked.
pub open spec fn spec_mark_refunded(
    rts: Seq<RefundedTicket>,
    ticket_instance_id: Id,
    only_refund_fees: bool,
    now: Timestamp,
) -> Seq<RefundedTicket> {
    match refund_record(rts, ticket_instance_id) {
        None => rts,
        Some(i) => rts.update(i, marked(rts[i], only_refund_fees, now)),
    }
}

/// The instances after the first row of `ticket_id` went back to the pool.
pub open spec fn spec_release_one(ts: Seq<TicketInstance>, ticket_id: Id) -> Seq<TicketInstance> {
    match index_of(ts, ticket_id) {
        None => ts,
        Some(i) => ts.update(i, released_row(ts[i])),
    }
}

/// The lines after one more unit of the first child of `parent_id` with the
/// type `item_type` was refunded, and the unit price of that child; the
/// lines as they are, and nothing, where there is no such child or it has no
/// unit left.
pub open spec fn refund_child(items: Seq<OrderItem>, parent_id: Id, item_type: OrderItemTypes) -> (
    Seq<OrderItem>,
    int,
) {
    match child_of(items, parent_id, item_type) {
        None => (items, 0),
        Some(i) => {
            let child = items[i];
            if 0 <= child.refunded_quantity < child.quantity {
                (
                    items.update(
                        i,
                        OrderItem {
                            refunded_quantity: (child.refunded_quantity + 1) as i64,
                            ..child
                        },
                    ),
                    child.unit_price_in_cents as int,
                )
            } else {
                (items, 0)
            }
        },
    }
}

/// The refund of one unit of the line `item`, as its row stands in the
/// store: the row must belong to a paid order and have a unit left. The
/// row, its discount line and, with `refund_fees`, its fee line each count
/// one more refunded unit; the amount is the sum of their unit prices.
pub open spec fn spec_refund_one_unit(s: StoreState, item: OrderItem, refund_fees: bool) -> Result<
    (StoreState, u32),
    DatabaseError,
> {
    match index_of(s.order_items, item.id) {
        None => Err(DatabaseError::NotFound { table: Tables::OrderItems, id: item.id }),
        Some(i) => spec_refund_row(s, s.order_items[i], refund_fees),
    }
}

/// The refund of one unit of `item`, which is a row of the store.
pub open spec fn spec_refund_row(s: StoreState, item: OrderItem, refund_fees: bool) -> Result<
    (StoreState, u32),
    DatabaseError,
> {
    match index_of(s.orders, item.order_id) {
        None => Err(DatabaseError::NotFound { table: Tables::Orders, id: item.order_id }),
        Some(o) => if s.orders[o].status != OrderStatus::Paid {
            Err(DatabaseError::RefundOfUnpaidOrder)
        } else if item.refunded_quantity >= item.quantity {
            Err(DatabaseError::NothingLeftToRefund)
        } else {
            match spec_update_item(
                s.order_items,
                OrderItem { refunded_quantity: (item.refunded_quantity + 1) as i64, ..item },
            ) {
                Err(e) => Err(e),
                Ok(items1) => {
                    let (items2, fee) = if refund_fees {
                        refund_child(items1, item.id, OrderItemTypes::PerUnitFees)
                    } else {
                        (items1, 0)
                    };
                    let (items3, discount) = refund_child(
                        items2,
                        item.id,
                        OrderItemTypes::Discount,
                    );
                    let amount = item.unit_price_in_cents + fee + discount;
                    if 0 <= amount <= u32::MAX {
                        Ok((StoreState { order_items: items3, ..s }, amount as u32))
                    } else {
                        Err(DatabaseError::ArithmeticOverflow)
                    }
                },
            }
        },
    }
}

/// Whether a line is refunded ticket by ticket.
pub open spec fn ticket_bound(item: OrderItem) -> bool {
    item.item_type == OrderItemTypes::Tickets || item.item_type == OrderItemTypes::PerUnitFees
}

/// Whether the record forbids another refund for a line of the type `item_type`.
pub open spec fn already_refunded(record: RefundedTicket, item_type: OrderItemTypes) -> bool {
    record.ticket_refunded_at is Some || (record.fee_refunded_at is Some && item_type
        == OrderItemTypes::PerUnitFees)
}

/// The refund of a unit of a ticket or fee line for the ticket `ticket`.
pub open spec fn spec_refund_ticket(
    s: StoreState,
    item: OrderItem,
    ticket: TicketInstance,
    now: Timestamp,
) -> Result<(StoreState, u32), DatabaseError> {
    match spec_find_or_create_record(s, ticket) {
        Err(e) => Err(e),
        Ok((s1, record)) => if already_refunded(record, item.item_type) {
            Err(DatabaseError::AlreadyRefunded)
        } else if ticket.transferred {
            Err(DatabaseError::TicketTransferred)
        } else {
            let s2 = StoreState {
                refunded_tickets: spec_mark_refunded(
                    s1.refunded_tickets,
                    ticket.id,
                    item.item_type == OrderItemTypes::PerUnitFees,
                    now,
                ),
                ticket_instances: if ticket.status == TicketInstanceStatus::Purchased {
                    spec_release_one(s1.ticket_instances, ticket.id)
                } else {
                    s1.ticket_instances
                },
                ..s1
            };
            spec_refund_one_unit(s2, item, record.fee_refunded_at is None)
        },
    }
}

/// The refund that one entry of the list asks for.
pub open spec fn spec_refund_item(s: StoreState, order: Order, entry: RefundItem, now: Timestamp) -> Result<
    (StoreState, u32),
    DatabaseError,
> {
    match index_of(s.order_items, entry.order_item_id) {
        None => Err(DatabaseError::NotFound { table: Tables::OrderItems, id: entry.order_item_id }),
        Some(i) => {
            let item = s.order_items[i];
            if item.order_id != order.id {
                Err(DatabaseError::ItemNotInOrder)
            } else if entry.ticket_instance_id is Some && index_of(
                s.ticket_instances,
                entry.ticket_instance_id->0,
            ) is None {
                Err(
                    DatabaseError::NotFound {
                        table: Tables::TicketInstances,
                        id: entry.ticket_instance_id->0,
                    },
                )
            } else if !ticket_bound(item) {
                spec_refund_one_unit(s, item, true)
            } else if entry.ticket_instance_id is None {
                Err(DatabaseError::TicketRequiredForRefund)
            } else {
                spec_refund_ticket(
                    s,
                    item,
                    s.ticket_instances[index_of(s.ticket_instances, entry.ticket_instance_id->0)->0],
                    now,
                )
            }
        },
    }
}

/// What a refund gives: the new state and the cents to pay back.
pub type RefundOutcome = Result<(StoreState, u32), DatabaseError>;

/// The entries from the `k`th on, refunded in turn, with `total` cents so far.
pub open spec fn refund_entries_from(
    s: StoreState,
    order: Order,
    entries: Seq<RefundItem>,
    now: Timestamp,
    k: int,
    total: u32,
) -> RefundOutcome
    decreases entries.len() - k,
{
    if k < 0 || k >= entries.len() {
        Ok((s, total))
    } else {
        match spec_refund_item(s, order, entries[k], now) {
            Err(e) => Err(e),
            Ok((s1, amount)) => if total + amount > u32::MAX {
                Err(DatabaseError::ArithmeticOverflow)
            } else {
                refund_entries_from(s1, order, entries, now, k + 1, (total + amount) as u32)
            },
        }
    }
}

/// Whether a line has a unit left that was not refunded.
pub open spec fn has_unit_left(item: OrderItem) -> bool {
    item.refunded_quantity != item.quantity
}

/// Whether some other line of the same order and event, no event fee line,
/// has a unit left.
pub open spec fn has_live_sibling(items: Seq<OrderItem>, fee: OrderItem) -> bool {
    exists|j: int|
        0 <= j < items.len() && (#[trigger] items[j]).order_id == fee.order_id && items[j].event_id
            == fee.event_id && items[j].item_type != OrderItemTypes::EventFees && has_unit_left(
            items[j],
        )
}

/// Whether the line is an event fee line of the order that stands alone:
/// it has a unit left, and no other line of its event has.
pub open spec fn orphan_event_fee(items: Seq<OrderItem>, item: OrderItem, order_id: Id) -> bool {
    &&& item.order_id == order_id
    &&& item.item_type == OrderItemTypes::EventFees
    &&& has_unit_left(item)
    &&& !has_live_sibling(items, item)
}

/// The event fee lines of the order among the first `k` rows that stand alone.
pub open spec fn orphans_upto(items: Seq<OrderItem>, order_id: Id, k: int) -> Seq<OrderItem>
    decreases k,
{
    if k <= 0 {
        Seq::empty()
    } else {
        let rest = orphans_upto(items, order_id, k - 1);
        if orphan_event_fee(items, items[k - 1], order_id) {
            rest.push(items[k - 1])
        } else {
            rest
        }
    }
}

/// The lines from the `k`th on, one unit of each refunded, with `total`
/// cents so far.
pub open spec fn refund_lines_from(s: StoreState, lines: Seq<OrderItem>, k: int, total: u32) -> RefundOutcome
    decreases lines.len() - k,
{
    if k < 0 || k >= lines.len() {
        Ok((s, total))
    } else {
        match spec_refund_one_unit(s, lines[k], true) {
            Err(e) => Err(e),
            Ok((s1, amount)) => if total + amount > u32::MAX {
                Err(DatabaseError::ArithmeticOverflow)
            } else {
                refund_lines_from(s1, lines, k + 1, (total + amount) as u32)
            },
        }
    }
}

/// The steps of a refund after its entries: every event fee line that now
/// stands alone is refunded.
pub open spec fn spec_refund_orphans(r: RefundOutcome, order: Order) -> RefundOutcome {
    match r {
        Err(e) => Err(e),
        Ok((s, total)) => refund_lines_from(
            s,
            orphans_upto(s.order_items, order.id, s.order_items.len() as int),
            0,
            total,
        ),
    }
}

/// The refund of a list of entries for an order.
pub open spec fn spec_refund(s: StoreState, order: Order, entries: Seq<RefundItem>, now: Timestamp) -> RefundOutcome {
    spec_refund_orphans(refund_entries_from(s, order, entries, now, 0, 0), order)
}

fn add_cents(total: u32, amount: u32) -> (res: Result<u32, DatabaseError>)
    ensures
        res == if total + amount > u32::MAX {
            Err::<u32, DatabaseError>(DatabaseError::ArithmeticOverflow)
        } else {
            Ok::<u32, DatabaseError>((total + amount) as u32)
        },
{
    match total.checked_add(amount) {
        Some(sum) => Ok(sum),
        None => Err(DatabaseError::ArithmeticOverflow),
    }
}

fn is_parent_of(item: &OrderItem, parent_id: Id, item_type: OrderItemTypes) -> (yes: bool)
    ensures
        yes == (item.parent_id == Some(parent_id) && item.item_type == item_type),
{
    match item.parent_id {
        Some(p) => p == parent_id && item.item_type == item_type,
        None => false,
    }
}

fn try_refund_child(store: &mut Store, parent_id: Id, item_type: OrderItemTypes) -> (cents: i64)
    ensures
        final(store)@ == (StoreState {
            order_items: refund_child(old(store)@.order_items, parent_id, item_type).0,
            ..old(store)@
        }),
        cents == refund_child(old(store)@.order_items, parent_id, item_type).1,
{
    let mut k: usize = 0;
    while k < store.order_items.len()
        invariant
            k <= store.order_items.len(),
            store@ == old(store)@,
            crate::order_items::child_from(store@.order_items, parent_id, item_type, k as int)
                == child_of(store@.order_items, parent_id, item_type),
        decreases store.order_items.len() - k,
    {
        if is_parent_of(&store.order_items[k], parent_id, item_type) {
            let child = store.order_items[k];
            if 0 <= child.refunded_quantity && child.refunded_quantity < child.quantity {
                store.order_items[k].refunded_quantity = child.refunded_quantity + 1;
                assert(store@.order_items =~= refund_child(
                    old(store)@.order_items,
                    parent_id,
                    item_type,
                ).0);
                return child.unit_price_in_cents;
            }
            return 0;
        }
        k += 1;
    }
    0
}

fn has_sibling_with_unit_left(store: &Store, fee: &OrderItem) -> (yes: bool)
    ensures
        yes == has_live_sibling(store@.order_items, *fee),
{
    let mut k: usize = 0;
    while k < store.order_items.len()
        invariant
            k <= store.order_items.len(),
            forall|j: int|
                0 <= j < k ==> !((#[trigger] store@.order_items[j]).order_id == fee.order_id
                    && store@.order_items[j].event_id == fee.event_id
                    && store@.order_items[j].item_type != OrderItemTypes::EventFees && has_unit_left(
                    store@.order_items[j],
                )),
        decreases store.order_items.len() - k,
    {
        let item = &store.order_items[k];
        let same_event = match (item.event_id, fee.event_id) {
            (Some(a), Some(b)) => a == b,
            (None, None) => true,
            _ => false,
        };
        if item.order_id == fee.order_id && same_event && item.item_type
            != OrderItemTypes::EventFees && item.refunded_quantity != item.quantity {
            return true;
        }
        k += 1;
    }
    false
}

impl RefundedTicket {
    /// The refund record of the ticket; a new one where the ticket has none.
    pub fn find_or_create_by_ticket_instance(ticket: &TicketInstance, store: &mut Store) -> (res:
        Result<RefundedTicket, DatabaseError>)
        ensures
            match spec_find_or_create_record(old(store)@, *ticket) {
                Ok((s, record)) => res == Ok::<RefundedTicket, DatabaseError>(record)
                    && final(store)@ == s,
                Err(e) => res == Err::<RefundedTicket, DatabaseError>(e)
                    && final(store)@ == old(store)@,
            },
            res is Ok ==> res->Ok_0.ticket_instance_id == ticket.id,
    {
        let mut k: usize = 0;
        while k < store.refunded_tickets.len()
            invariant
                k <= store.refunded_tickets.len(),
                store@ == old(store)@,
                refund_record_from(store@.refunded_tickets, ticket.id, k as int) == refund_record(
                    store@.refunded_tickets,
                    ticket.id,
                ),
            decreases store.refunded_tickets.len() - k,
        {
            if store.refunded_tickets[k].ticket_instance_id == ticket.id {
                return Ok(store.refunded_tickets[k]);
            }
            k += 1;
        }
        let id = store.allocate_id()?;
        let record = RefundedTicket {
            id,
            order_item_id: ticket.order_item_id,
            ticket_instance_id: ticket.id,
            fee_refunded_at: None,
            ticket_refunded_at: None,
        };
        store.refunded_tickets.push(record);
        Ok(record)
    }

    /// Marks the fee of the ticket of this record as refunded at `now`, and
    /// the ticket too unless only the fee is refunded. The mark goes to the
    /// first record of the ticket.
    pub fn mark_refunded(&self, only_refund_fees: bool, store: &mut Store, now: Timestamp)
        ensures
            final(store)@ == (StoreState {
                refunded_tickets: spec_mark_refunded(
                    old(store)@.refunded_tickets,
                    self.ticket_instance_id,
                    only_refund_fees,
                    now,
                ),
                ..old(store)@
            }),
    {
        let mut k: usize = 0;
        while k < store.refunded_tickets.len()
            invariant
                k <= store.refunded_tickets.len(),
                store@ == old(store)@,
                refund_record_from(store@.refunded_tickets, self.ticket_instance_id, k as int)
                    == refund_record(store@.refunded_tickets, self.ticket_instance_id),
            decreases store.refunded_tickets.len() - k,
        {
            if store.refunded_tickets[k].ticket_instance_id == self.ticket_instance_id {
                store.refunded_tickets[k].fee_refunded_at = Some(now);
                if !only_refund_fees {
                    store.refunded_tickets[k].ticket_refunded_at = Some(now);
                }
                assert(store@.refunded_tickets =~= spec_mark_refunded(
                    old(store)@.refunded_tickets,
                    self.ticket_instance_id,
                    only_refund_fees,
                    now,
                ));
                return ;
            }
            k += 1;
        }
    }
}

impl TicketInstance {
    /// Gives the ticket back to the pool.
    pub fn release(&self, store: &mut Store)
        ensures
            final(store)@ == (StoreState {
                ticket_instances: spec_release_one(old(store)@.ticket_instances, self.id),
                ..old(store)@
            }),
    {
        match find_index(&store.ticket_instances, self.id) {
            None => {},
            Some(i) => {
                store.ticket_instances[i].order_item_id = None;
                store.ticket_instances[i].owner_id = None;
                store.ticket_instances[i].reserved_until = None;
                store.ticket_instances[i].status = TicketInstanceStatus::Available;
                assert(store@.ticket_instances =~= spec_release_one(
                    old(store)@.ticket_instances,
                    self.id,
                ));
            },
        }
    }

    /// The first ticket with the identifier `id`.
    pub fn find(id: Id, store: &Store) -> (res: Result<TicketInstance, DatabaseError>)
        ensures
            match index_of(store@.ticket_instances, id) {
                Some(i) => res == Ok::<TicketInstance, DatabaseError>(store@.ticket_instances[i]),
                None => res == Err::<TicketInstance, DatabaseError>(
                    DatabaseError::NotFound { table: Tables::TicketInstances, id },
                ),
            },
    {
        match find_index(&store.ticket_instances, id) {
            Some(i) => Ok(store.ticket_instances[i]),
            None => Err(DatabaseError::NotFound { table: Tables::TicketInstances, id }),
        }
    }

    /// Whether the ticket has moved to another wallet since it was bought.
    pub fn was_transferred(&self) -> (yes: bool)
        ensures
            yes == self.transferred,
    {
        self.transferred
    }
}

impl OrderItem {
    /// Refunds one unit of this line. Where it fails, the store may hold a
    /// part of the refund.
    pub(crate) fn try_refund_one_unit(&self, refund_fees: bool, store: &mut Store) -> (res: Result<
        u32,
        DatabaseError,
    >)
        ensures
            match spec_refund_one_unit(old(store)@, *self, refund_fees) {
                Ok((s, cents)) => res == Ok::<u32, DatabaseError>(cents) && final(store)@ == s,
                Err(e) => res == Err::<u32, DatabaseError>(e),
            },
    {
        let row = match find_index(&store.order_items, self.id) {
            Some(i) => store.order_items[i],
            None => {
                return Err(DatabaseError::NotFound { table: Tables::OrderItems, id: self.id });
            },
        };
        let o = match find_index(&store.orders, row.order_id) {
            Some(o) => o,
            None => {
                return Err(DatabaseError::NotFound { table: Tables::Orders, id: row.order_id });
            },
        };
        if store.orders[o].status != OrderStatus::Paid {
            return Err(DatabaseError::RefundOfUnpaidOrder);
        }
        if row.refunded_quantity >= row.quantity {
            return Err(DatabaseError::NothingLeftToRefund);
        }
        let mut changed = row;
        changed.refunded_quantity = row.refunded_quantity + 1;
        changed.update(store)?;
        let fee: i64 = if refund_fees {
            try_refund_child(store, row.id, OrderItemTypes::PerUnitFees)
        } else {
            0
        };
        let discount: i64 = try_refund_child(store, row.id, OrderItemTypes::Discount);
        let amount: i128 = row.unit_price_in_cents as i128 + fee as i128 + discount as i128;
        if amount < 0 || amount > u32::MAX as i128 {
            return Err(DatabaseError::ArithmeticOverflow);
        }
        Ok(amount as u32)
    }

    /// Refunds one unit of this line, as its row stands in the store: the
    /// row must belong to a paid order and have a unit left. The row, its
    /// discount line and, with `refund_fees`, its fee line count one more
    /// refunded unit each. Gives the cents to pay back. Where it fails,
    /// nothing changes.
    pub fn refund_one_unit(&self, refund_fees: bool, store: &mut Store) -> (res: Result<
        u32,
        DatabaseError,
    >)
        ensures
            match spec_refund_one_unit(old(store)@, *self, refund_fees) {
                Ok((s, cents)) => res == Ok::<u32, DatabaseError>(cents) && final(store)@ == s,
                Err(e) => res == Err::<u32, DatabaseError>(e) && final(store)@ == old(store)@,
            },
    {
        let saved = store.snapshot();
        let res = self.try_refund_one_unit(refund_fees, store);
        if res.is_err() {
            *store = saved;
        }
        res
    }
}

fn try_refund_ticket(store: &mut Store, item: &OrderItem, ticket: &TicketInstance, now: Timestamp) -> (res:
    Result<u32, DatabaseError>)
    ensures
        match spec_refund_ticket(old(store)@, *item, *ticket, now) {
            Ok((s, cents)) => res == Ok::<u32, DatabaseError>(cents) && final(store)@ == s,
            Err(e) => res == Err::<u32, DatabaseError>(e),
        },
{
    let record = RefundedTicket::find_or_create_by_ticket_instance(ticket, store)?;
    let only_refund_fees = item.item_type == OrderItemTypes::PerUnitFees;
    if record.ticket_refunded_at.is_some() || (record.fee_refunded_at.is_some()
        && only_refund_fees) {
        return Err(DatabaseError::AlreadyRefunded);
    }
    if ticket.was_transferred() {
        return Err(DatabaseError::TicketTransferred);
    }
    let refund_fees = record.fee_refunded_at.is_none();
    record.mark_refunded(only_refund_fees, store, now);
    if ticket.status == TicketInstanceStatus::Purchased {
        ticket.release(store);
    }
    item.try_refund_one_unit(refund_fees, store)
}

fn try_refund_item(store: &mut Store, order: &Order, entry: &RefundItem, now: Timestamp) -> (res:
    Result<u32, DatabaseError>)
    ensures
        match spec_refund_item(old(store)@, *order, *entry, now) {
            Ok((s, cents)) => res == Ok::<u32, DatabaseError>(cents) && final(store)@ == s,
            Err(e) => res == Err::<u32, DatabaseError>(e),
        },
{
    let item = OrderItem::find(entry.order_item_id, store)?;
    if item.order_id != order.id {
        return Err(DatabaseError::ItemNotInOrder);
    }
    let ticket = match entry.ticket_instance_id {
        Some(id) => Some(TicketInstance::find(id, store)?),
        None => None,
    };
    if item.item_type == OrderItemTypes::Tickets || item.item_type == OrderItemTypes::PerUnitFees {
        match ticket {
            None => Err(DatabaseError::TicketRequiredForRefund),
            Some(ticket) => try_refund_ticket(store, &item, &ticket, now),
        }
    } else {
        item.try_refund_one_unit(true, store)
    }
}

impl Order {
    /// The event fee lines of the order that stand alone: they have a unit
    /// left, and no other line of their event has.
    pub fn event_fee_items_with_no_associated_items(&self, store: &Store) -> (found: Vec<OrderItem>)
        ensures
            found@ == orphans_upto(store@.order_items, self.id, store@.order_items.len() as int),
    {
        let mut found: Vec<OrderItem> = Vec::new();
        let mut k: usize = 0;
        while k < store.order_items.len()
            invariant
                k <= store.order_items.len(),
                found@ == orphans_upto(store@.order_items, self.id, k as int),
            decreases store.order_items.len() - k,
        {
            let item = store.order_items[k];
            if item.order_id == self.id && item.item_type == OrderItemTypes::EventFees
                && item.refunded_quantity != item.quantity && !has_sibling_with_unit_left(
                store,
                &item,
            ) {
                found.push(item);
            }
            k += 1;
        }
        found
    }

    fn try_refund(&self, refund_items: &Vec<RefundItem>, store: &mut Store, now: Timestamp) -> (res:
        Result<u32, DatabaseError>)
        ensures
            match spec_refund(old(store)@, *self, refund_items@, now) {
                Ok((s, cents)) => res == Ok::<u32, DatabaseError>(cents) && final(store)@ == s,
                Err(e) => res == Err::<u32, DatabaseError>(e),
            },
    {
        let ghost goal = spec_refund(old(store)@, *self, refund_items@, now);
        let mut total: u32 = 0;
        let mut k: usize = 0;
        while k < refund_items.len()
            invariant
                k <= refund_items.len(),
                goal == spec_refund(old(store)@, *self, refund_items@, now),
                goal == spec_refund_orphans(
                    refund_entries_from(store@, *self, refund_items@, now, k as int, total),
                    *self,
                ),
            decreases refund_items.len() - k,
        {
            let amount = try_refund_item(store, self, &refund_items[k], now)?;
            total = add_cents(total, amount)?;
            k += 1;
        }
        let orphans = self.event_fee_items_with_no_associated_items(store);
        let mut k: usize = 0;
        while k < orphans.len()
            invariant
                k <= orphans.len(),
                goal == spec_refund(old(store)@, *self, refund_items@, now),
                goal == refund_lines_from(store@, orphans@, k as int, total),
            decreases orphans.len() - k,
        {
            let amount = orphans[k].try_refund_one_unit(true, store)?;
            total = add_cents(total, amount)?;
            k += 1;
        }
        Ok(total)
    }

    /// Refunds the entries of `refund_items` in turn, one unit each. A unit
    /// of a ticket or fee line is refunded for a ticket: a ticket that was
    /// refunded before, or has moved to another wallet, is refused; a bought
    /// ticket goes back to the pool, a redeemed one stays redeemed. Then
    /// every event fee line that stands alone is refunded. Gives the cents
    /// to pay back. Where it fails, nothing changes.
    pub fn refund(&self, refund_items: Vec<RefundItem>, store: &mut Store, now: Timestamp) -> (res:
        Result<u32, DatabaseError>)
        ensures
            match spec_refund(old(store)@, *self, refund_items@, now) {
                Ok((s, cents)) => res == Ok::<u32, DatabaseError>(cents) && final(store)@ == s,
                Err(e) => res == Err::<u32, DatabaseError>(e) && final(store)@ == old(store)@,
            },
    {
        let saved = store.snapshot();
        let res = self.try_refund(&refund_items, store, now);
        if res.is_err() {
            *store = saved;
        }
        res
    }
}

} // verus!
