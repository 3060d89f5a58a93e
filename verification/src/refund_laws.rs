//! What holds of refunds whatever the store holds: no line counts more
//! refunded units than units, and no ticket is refunded twice.

use vstd::prelude::*;
use crate::errors::DatabaseError;
use crate::model::{Order, OrderItem, RefundItem, RefundedTicket, TicketInstance};
use crate::order_items::{items_valid, spec_update_item};
use crate::refunds::{
    marked, orphans_upto, refund_child, refund_entries_from, refund_lines_from, refund_record,
    refund_record_from, spec_find_or_create_record, spec_mark_refunded, spec_refund,
    spec_refund_item, spec_refund_one_unit, spec_refund_ticket, ticket_bound,
};
use crate::store::{index_from, index_of, lemma_index_of, StoreState};
use crate::types::{Id, OrderItemTypes, Timestamp};

verus! {

/// Whether the ticket-component of the ticket has been refunded.
pub open spec fn ticket_refunded(rts: Seq<RefundedTicket>, ticket_instance_id: Id) -> bool {
    refund_record(rts, ticket_instance_id) is Some && rts[refund_record(
        rts,
        ticket_instance_id,
    )->0].ticket_refunded_at is Some
}

/// The table `b` holds the lines of `a`, refunded further: as many rows,
/// each what it was but for its count of refunded units, which is no lower
/// than it was, and as it was where the row had no unit left.
pub open spec fn refunded_further(a: Seq<OrderItem>, b: Seq<OrderItem>) -> bool {
    &&& a.len() == b.len()
    &&& forall|i: int|
        0 <= i < a.len() ==> {
            &&& (#[trigger] b[i]) == (OrderItem { refunded_quantity: b[i].refunded_quantity, ..a[i] })
            &&& a[i].refunded_quantity <= b[i].refunded_quantity
            &&& (a[i].refunded_quantity >= a[i].quantity ==> b[i].refunded_quantity
                == a[i].refunded_quantity)
        }
}

proof fn lemma_refund_record_from(rts: Seq<RefundedTicket>, id: Id, from: int)
    requires
        0 <= from,
    ensures
        match refund_record_from(rts, id, from) {
            Some(i) => from <= i < rts.len() && rts[i].ticket_instance_id == id,
            None => forall|j: int| from <= j < rts.len() ==> rts[j].ticket_instance_id != id,
        },
    decreases rts.len() - from,
{
    if from < rts.len() && rts[from].ticket_instance_id != id {
        lemma_refund_record_from(rts, id, from + 1);
    }
}

proof fn lemma_record_after_update(
    rts: Seq<RefundedTicket>,
    at: int,
    row: RefundedTicket,
    id: Id,
    from: int,
)
    requires
        0 <= at < rts.len(),
        row.ticket_instance_id == rts[at].ticket_instance_id,
        0 <= from,
    ensures
        refund_record_from(rts.update(at, row), id, from) == refund_record_from(rts, id, from),
    decreases rts.len() - from,
{
    if from < rts.len() {
        if rts.update(at, row)[from].ticket_instance_id != id {
            lemma_record_after_update(rts, at, row, id, from + 1);
        }
    }
}

proof fn lemma_record_after_push(rts: Seq<RefundedTicket>, row: RefundedTicket, id: Id, from: int)
    requires
        0 <= from,
        refund_record_from(rts, id, from) is Some,
    ensures
        refund_record_from(rts.push(row), id, from) == refund_record_from(rts, id, from),
    decreases rts.len() - from,
{
    if from < rts.len() {
        assert(rts.push(row)[from] == rts[from]);
        if rts[from].ticket_instance_id != id {
            lemma_record_after_push(rts, row, id, from + 1);
        }
    }
}

proof fn lemma_record_found_after_push(rts: Seq<RefundedTicket>, row: RefundedTicket, from: int)
    requires
        0 <= from <= rts.len(),
        refund_record_from(rts, row.ticket_instance_id, from) is None,
    ensures
        refund_record_from(rts.push(row), row.ticket_instance_id, from) == Some(rts.len() as int),
    decreases rts.len() - from,
{
    if from < rts.len() {
        assert(rts.push(row)[from] == rts[from]);
        lemma_record_found_after_push(rts, row, from + 1);
    } else {
        assert(rts.push(row)[from] == row);
    }
}

proof fn lemma_index_after_refund_child(
    items: Seq<OrderItem>,
    parent_id: Id,
    item_type: OrderItemTypes,
)
    ensures
        refunded_further(items, refund_child(items, parent_id, item_type).0),
        items_valid(items) ==> items_valid(refund_child(items, parent_id, item_type).0),
{
    crate::order_items::lemma_child_from(items, parent_id, item_type, 0);
}

proof fn lemma_refunded_further_trans(a: Seq<OrderItem>, b: Seq<OrderItem>, c: Seq<OrderItem>)
    requires
        refunded_further(a, b),
        refunded_further(b, c),
    ensures
        refunded_further(a, c),
{
    assert forall|i: int| 0 <= i < a.len() implies {
        &&& (#[trigger] c[i]) == (OrderItem { refunded_quantity: c[i].refunded_quantity, ..a[i] })
        &&& a[i].refunded_quantity <= c[i].refunded_quantity
        &&& (a[i].refunded_quantity >= a[i].quantity ==> c[i].refunded_quantity
            == a[i].refunded_quantity)
    } by {
        assert(b[i] == (OrderItem { refunded_quantity: b[i].refunded_quantity, ..a[i] }));
    }
}

/// The refund of one unit leaves the lines what they are but for their
/// counts of refunded units, of which none goes down and none goes up on a
/// line without a unit left; and it leaves the constraint of the table in
/// force.
pub proof fn lemma_refund_one_unit_keeps(s: StoreState, item: OrderItem, refund_fees: bool)
    requires
        spec_refund_one_unit(s, item, refund_fees) is Ok,
    ensures
        ({
            let s1 = spec_refund_one_unit(s, item, refund_fees)->Ok_0.0;
            &&& refunded_further(s.order_items, s1.order_items)
            &&& s1.refunded_tickets == s.refunded_tickets
            &&& s1.ticket_instances == s.ticket_instances
            &&& (items_valid(s.order_items) ==> items_valid(s1.order_items))
        }),
{
    let at = index_of(s.order_items, item.id)->0;
    lemma_index_of(s.order_items, item.id);
    let row = s.order_items[at];
    let changed = OrderItem { refunded_quantity: (row.refunded_quantity + 1) as i64, ..row };
    let items1 = spec_update_item(s.order_items, changed)->Ok_0;
    assert(items1 == s.order_items.update(at, changed));
    assert(refunded_further(s.order_items, items1));
    assert(items_valid(s.order_items) ==> items_valid(items1));
    let items2 = if refund_fees {
        refund_child(items1, row.id, OrderItemTypes::PerUnitFees).0
    } else {
        items1
    };
    if refund_fees {
        lemma_index_after_refund_child(items1, row.id, OrderItemTypes::PerUnitFees);
    }
    lemma_refunded_further_trans(s.order_items, items1, items2);
    lemma_index_after_refund_child(items2, row.id, OrderItemTypes::Discount);
    let items3 = refund_child(items2, row.id, OrderItemTypes::Discount).0;
    lemma_refunded_further_trans(s.order_items, items2, items3);
}

/// The refund of a unit for a ticket marks the ticket, unless only its fee
/// is refunded; and a ticket that was marked stays marked.
pub proof fn lemma_refund_ticket_marks(
    s: StoreState,
    item: OrderItem,
    ticket: TicketInstance,
    now: Timestamp,
    other: Id,
)
    requires
        spec_refund_ticket(s, item, ticket, now) is Ok,
    ensures
        ({
            let s1 = spec_refund_ticket(s, item, ticket, now)->Ok_0.0;
            &&& item.item_type != OrderItemTypes::PerUnitFees ==> ticket_refunded(
                s1.refunded_tickets,
                ticket.id,
            )
            &&& ticket_refunded(s.refunded_tickets, other) ==> ticket_refunded(
                s1.refunded_tickets,
                other,
            )
            &&& refunded_further(s.order_items, s1.order_items)
            &&& (items_valid(s.order_items) ==> items_valid(s1.order_items))
        }),
{
    let (sa, record) = spec_find_or_create_record(s, ticket)->Ok_0;
    lemma_refund_record_from(s.refunded_tickets, ticket.id, 0);
    lemma_refund_record_from(s.refunded_tickets, other, 0);
    if refund_record(s.refunded_tickets, ticket.id) is None {
        lemma_record_found_after_push(s.refunded_tickets, record, 0);
        if ticket_refunded(s.refunded_tickets, other) {
            lemma_record_after_push(s.refunded_tickets, record, other, 0);
        }
    }
    let at = refund_record(sa.refunded_tickets, ticket.id)->0;
    lemma_refund_record_from(sa.refunded_tickets, ticket.id, 0);
    let only = item.item_type == OrderItemTypes::PerUnitFees;
    let row = marked(sa.refunded_tickets[at], only, now);
    let rts = spec_mark_refunded(sa.refunded_tickets, ticket.id, only, now);
    lemma_record_after_update(sa.refunded_tickets, at, row, ticket.id, 0);
    lemma_record_after_update(sa.refunded_tickets, at, row, other, 0);
    let sb = StoreState {
        refunded_tickets: rts,
        ticket_instances: if ticket.status == crate::types::TicketInstanceStatus::Purchased {
            crate::refunds::spec_release_one(sa.ticket_instances, ticket.id)
        } else {
            sa.ticket_instances
        },
        ..sa
    };
    lemma_refund_one_unit_keeps(sb, item, record.fee_refunded_at is None);
}

/// A ticket whose ticket-component was refunded is refused for every line
/// that is refunded ticket by ticket.
pub proof fn lemma_refunded_ticket_refused(
    s: StoreState,
    item: OrderItem,
    ticket: TicketInstance,
    now: Timestamp,
)
    requires
        ticket_refunded(s.refunded_tickets, ticket.id),
    ensures
        spec_refund_ticket(s, item, ticket, now) == Err::<(StoreState, u32), DatabaseError>(
            DatabaseError::AlreadyRefunded,
        ),
{
}

/// One entry of a refund leaves the lines what they are, the constraint of
/// the table in force, and every marked ticket marked.
pub proof fn lemma_refund_item_keeps(
    s: StoreState,
    order: Order,
    entry: RefundItem,
    now: Timestamp,
    other: Id,
)
    requires
        spec_refund_item(s, order, entry, now) is Ok,
    ensures
        ({
            let s1 = spec_refund_item(s, order, entry, now)->Ok_0.0;
            &&& refunded_further(s.order_items, s1.order_items)
            &&& (items_valid(s.order_items) ==> items_valid(s1.order_items))
            &&& ticket_refunded(s.refunded_tickets, other) ==> ticket_refunded(
                s1.refunded_tickets,
                other,
            )
        }),
{
    let item = s.order_items[index_of(s.order_items, entry.order_item_id)->0];
    if !ticket_bound(item) {
        lemma_refund_one_unit_keeps(s, item, true);
    } else {
        let ticket = s.ticket_instances[index_of(s.ticket_instances, entry.ticket_instance_id->0)->0];
        lemma_refund_ticket_marks(s, item, ticket, now, other);
    }
}

proof fn lemma_refunded_further_index(a: Seq<OrderItem>, b: Seq<OrderItem>, id: Id, from: int)
    requires
        refunded_further(a, b),
        0 <= from,
    ensures
        index_from(a, id, from) == index_from(b, id, from),
    decreases a.len() - from,
{
    if from < a.len() {
        assert(b[from] == (OrderItem { refunded_quantity: b[from].refunded_quantity, ..a[from] }));
        if a[from].id != id {
            lemma_refunded_further_index(a, b, id, from + 1);
        }
    }
}

proof fn lemma_lines_keep(s: StoreState, lines: Seq<OrderItem>, k: int, total: u32, other: Id)
    requires
        0 <= k,
        refund_lines_from(s, lines, k, total) is Ok,
    ensures
        ({
            let s1 = refund_lines_from(s, lines, k, total)->Ok_0.0;
            &&& refunded_further(s.order_items, s1.order_items)
            &&& (items_valid(s.order_items) ==> items_valid(s1.order_items))
            &&& s1.refunded_tickets == s.refunded_tickets
        }),
    decreases lines.len() - k,
{
    if k < lines.len() {
        let (s1, amount) = spec_refund_one_unit(s, lines[k], true)->Ok_0;
        lemma_refund_one_unit_keeps(s, lines[k], true);
        lemma_lines_keep(s1, lines, k + 1, (total + amount) as u32, other);
        lemma_refunded_further_trans(
            s.order_items,
            s1.order_items,
            refund_lines_from(s, lines, k, total)->Ok_0.0.order_items,
        );
    }
}

proof fn lemma_entries_keep(
    s: StoreState,
    order: Order,
    entries: Seq<RefundItem>,
    now: Timestamp,
    k: int,
    total: u32,
    other: Id,
)
    requires
        0 <= k,
        refund_entries_from(s, order, entries, now, k, total) is Ok,
    ensures
        ({
            let s1 = refund_entries_from(s, order, entries, now, k, total)->Ok_0.0;
            &&& refunded_further(s.order_items, s1.order_items)
            &&& (items_valid(s.order_items) ==> items_valid(s1.order_items))
            &&& ticket_refunded(s.refunded_tickets, other) ==> ticket_refunded(
                s1.refunded_tickets,
                other,
            )
        }),
    decreases entries.len() - k,
{
    if k < entries.len() {
        let (s1, amount) = spec_refund_item(s, order, entries[k], now)->Ok_0;
        lemma_refund_item_keeps(s, order, entries[k], now, other);
        lemma_entries_keep(s1, order, entries, now, k + 1, (total + amount) as u32, other);
        lemma_refunded_further_trans(
            s.order_items,
            s1.order_items,
            refund_entries_from(s, order, entries, now, k, total)->Ok_0.0.order_items,
        );
    }
}

/// Refund monotonicity, first part. A refund leaves the lines what they are
/// and changes only how many of their units count as refunded: no count
/// goes down, and the count of a line without a unit left stays as it is.
/// Where no line counted more refunded units than units before, none does
/// after.
pub proof fn lemma_refund_keeps_constraint(
    s: StoreState,
    order: Order,
    entries: Seq<RefundItem>,
    now: Timestamp,
)
    requires
        spec_refund(s, order, entries, now) is Ok,
    ensures
        refunded_further(s.order_items, spec_refund(s, order, entries, now)->Ok_0.0.order_items),
        items_valid(s.order_items) ==> items_valid(
            spec_refund(s, order, entries, now)->Ok_0.0.order_items,
        ),
{
    let (s1, total) = refund_entries_from(s, order, entries, now, 0, 0)->Ok_0;
    lemma_entries_keep(s, order, entries, now, 0, 0, 0);
    let orphans = orphans_upto(s1.order_items, order.id, s1.order_items.len() as int);
    lemma_lines_keep(s1, orphans, 0, total, 0);
    lemma_refunded_further_trans(
        s.order_items,
        s1.order_items,
        spec_refund(s, order, entries, now)->Ok_0.0.order_items,
    );
}

/// A ticket whose ticket-component was refunded stays so through every
/// later refund.
pub proof fn lemma_refund_keeps_marks(
    s: StoreState,
    order: Order,
    entries: Seq<RefundItem>,
    now: Timestamp,
    ticket_instance_id: Id,
)
    requires
        spec_refund(s, order, entries, now) is Ok,
        ticket_refunded(s.refunded_tickets, ticket_instance_id),
    ensures
        ticket_refunded(
            spec_refund(s, order, entries, now)->Ok_0.0.refunded_tickets,
            ticket_instance_id,
        ),
{
    let (s1, total) = refund_entries_from(s, order, entries, now, 0, 0)->Ok_0;
    lemma_entries_keep(s, order, entries, now, 0, 0, ticket_instance_id);
    let orphans = orphans_upto(s1.order_items, order.id, s1.order_items.len() as int);
    lemma_lines_keep(s1, orphans, 0, total, ticket_instance_id);
}

/// Whether the entry asks for the refund of the ticket `ticket_instance_id`
/// through a ticket line.
pub open spec fn asks_for_ticket(items: Seq<OrderItem>, entry: RefundItem, ticket_instance_id: Id) -> bool {
    &&& entry.ticket_instance_id == Some(ticket_instance_id)
    &&& index_of(items, entry.order_item_id) is Some
    &&& items[index_of(items, entry.order_item_id)->0].item_type == OrderItemTypes::Tickets
}

proof fn lemma_entries_mark(
    s: StoreState,
    order: Order,
    entries: Seq<RefundItem>,
    now: Timestamp,
    k: int,
    total: u32,
    j: int,
    ticket_instance_id: Id,
)
    requires
        0 <= k <= j < entries.len(),
        refund_entries_from(s, order, entries, now, k, total) is Ok,
        asks_for_ticket(s.order_items, entries[j], ticket_instance_id),
    ensures
        ticket_refunded(
            refund_entries_from(s, order, entries, now, k, total)->Ok_0.0.refunded_tickets,
            ticket_instance_id,
        ),
    decreases entries.len() - k,
{
    let (s1, amount) = spec_refund_item(s, order, entries[k], now)->Ok_0;
    lemma_refund_item_keeps(s, order, entries[k], now, ticket_instance_id);
    if k == j {
        let item = s.order_items[index_of(s.order_items, entries[k].order_item_id)->0];
        lemma_index_of(s.ticket_instances, ticket_instance_id);
        let ticket = s.ticket_instances[index_of(s.ticket_instances, ticket_instance_id)->0];
        lemma_refund_ticket_marks(s, item, ticket, now, ticket_instance_id);
        lemma_entries_keep(s1, order, entries, now, k + 1, (total + amount) as u32, ticket_instance_id);
    } else {
        lemma_refunded_further_index(s.order_items, s1.order_items, entries[j].order_item_id, 0);
        lemma_index_of(s.order_items, entries[j].order_item_id);
        lemma_entries_mark(
            s1,
            order,
            entries,
            now,
            k + 1,
            (total + amount) as u32,
            j,
            ticket_instance_id,
        );
    }
}

proof fn lemma_entries_refuse(
    s: StoreState,
    order: Order,
    entries: Seq<RefundItem>,
    now: Timestamp,
    k: int,
    total: u32,
    j: int,
    ticket_instance_id: Id,
)
    requires
        0 <= k <= j < entries.len(),
        ticket_refunded(s.refunded_tickets, ticket_instance_id),
        asks_for_ticket(s.order_items, entries[j], ticket_instance_id),
    ensures
        refund_entries_from(s, order, entries, now, k, total) is Err,
    decreases entries.len() - k,
{
    if k == j {
        if spec_refund_item(s, order, entries[k], now) is Ok {
            let item = s.order_items[index_of(s.order_items, entries[k].order_item_id)->0];
            let ticket = s.ticket_instances[index_of(s.ticket_instances, ticket_instance_id)->0];
            lemma_index_of(s.ticket_instances, ticket_instance_id);
            lemma_refunded_ticket_refused(s, item, ticket, now);
        }
    } else if spec_refund_item(s, order, entries[k], now) is Ok {
        let (s1, amount) = spec_refund_item(s, order, entries[k], now)->Ok_0;
        lemma_refund_item_keeps(s, order, entries[k], now, ticket_instance_id);
        lemma_refunded_further_index(s.order_items, s1.order_items, entries[j].order_item_id, 0);
        lemma_index_of(s.order_items, entries[j].order_item_id);
        if total + amount <= u32::MAX {
            lemma_entries_refuse(
                s1,
                order,
                entries,
                now,
                k + 1,
                (total + amount) as u32,
                j,
                ticket_instance_id,
            );
        }
    }
}

/// Refund monotonicity, second part. Once a refund has paid back a ticket
/// through its ticket line, every later refund that asks for the same ticket
/// through a ticket line is refused as a whole, whatever else it asks for
/// and for whichever order.
pub proof fn lemma_no_second_ticket_refund(
    s: StoreState,
    order: Order,
    entries: Seq<RefundItem>,
    now: Timestamp,
    j: int,
    later_order: Order,
    later_entries: Seq<RefundItem>,
    later: Timestamp,
    m: int,
    ticket_instance_id: Id,
)
    requires
        spec_refund(s, order, entries, now) is Ok,
        0 <= j < entries.len(),
        asks_for_ticket(s.order_items, entries[j], ticket_instance_id),
        0 <= m < later_entries.len(),
        asks_for_ticket(s.order_items, later_entries[m], ticket_instance_id),
    ensures
        spec_refund(
            spec_refund(s, order, entries, now)->Ok_0.0,
            later_order,
            later_entries,
            later,
        ) is Err,
{
    let (s1, total) = refund_entries_from(s, order, entries, now, 0, 0)->Ok_0;
    lemma_entries_mark(s, order, entries, now, 0, 0, j, ticket_instance_id);
    let s2 = spec_refund(s, order, entries, now)->Ok_0.0;
    lemma_entries_keep(s, order, entries, now, 0, 0, ticket_instance_id);
    let orphans = orphans_upto(s1.order_items, order.id, s1.order_items.len() as int);
    lemma_lines_keep(s1, orphans, 0, total, ticket_instance_id);
    lemma_refund_keeps_constraint(s, order, entries, now);
    lemma_refunded_further_index(s.order_items, s2.order_items, later_entries[m].order_item_id, 0);
    lemma_index_of(s.order_items, later_entries[m].order_item_id);
    lemma_entries_refuse(s2, later_order, later_entries, later, 0, 0, m, ticket_instance_id);
}

} // verus!
