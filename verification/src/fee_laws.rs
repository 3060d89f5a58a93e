//! What holds of the recomputation of fees: doing it twice gives the lines
//! that doing it once gave.

use vstd::prelude::*;
use crate::errors::DatabaseError;
use crate::fees::{
    base_items, base_items_upto, discount_rows, discounts_from, event_lines, event_lines_upto,
    fee_line, fee_plan, fees_from, insert_planned_from, is_derived, line_discount,
    spec_update_fees, ticket_lines, ticket_lines_upto, FeeProgress,
};
use crate::filters::{
    keep, keep_upto, lemma_keep_all, lemma_keep_append, lemma_keep_none, lemma_keep_of_keep,
    lemma_keep_rows,
};
use crate::model::{Order, OrderItem};
use crate::order_items::{item_constraint, items_of, items_of_upto, items_valid};
use crate::payments::{spec_calculate_total, sum_lines_from};
use crate::store::{CatalogState, StoreState};
use crate::types::{Id, OrderItemTypes};

verus! {

/// The test for a row that is no fee or discount line of the order.
pub open spec fn not_derived(order_id: Id) -> spec_fn(OrderItem) -> bool {
    |item: OrderItem| !is_derived(item, order_id)
}

/// The test for a ticket line of the order.
pub open spec fn ticket_line_of(order_id: Id) -> spec_fn(OrderItem) -> bool {
    |item: OrderItem| item.order_id == order_id && item.item_type == OrderItemTypes::Tickets
}

/// The test for a line of the order.
pub open spec fn line_of(order_id: Id) -> spec_fn(OrderItem) -> bool {
    |item: OrderItem| item.order_id == order_id
}

proof fn lemma_base_is_keep(items: Seq<OrderItem>, order_id: Id, k: int)
    ensures
        base_items_upto(items, order_id, k) == keep_upto(items, not_derived(order_id), k),
    decreases k,
{
    if k > 0 {
        lemma_base_is_keep(items, order_id, k - 1);
    }
}

proof fn lemma_tickets_is_keep(items: Seq<OrderItem>, order_id: Id, k: int)
    ensures
        ticket_lines_upto(items, order_id, k) == keep_upto(items, ticket_line_of(order_id), k),
    decreases k,
{
    if k > 0 {
        lemma_tickets_is_keep(items, order_id, k - 1);
    }
}

proof fn lemma_items_is_keep(items: Seq<OrderItem>, order_id: Id, k: int)
    ensures
        items_of_upto(items, order_id, k) == keep_upto(items, line_of(order_id), k),
    decreases k,
{
    if k > 0 {
        lemma_items_is_keep(items, order_id, k - 1);
    }
}

/// Every row is a fee or discount line of the order.
pub open spec fn all_derived(rows: Seq<OrderItem>, order_id: Id) -> bool {
    forall|i: int| 0 <= i < rows.len() ==> is_derived(#[trigger] rows[i], order_id)
}

proof fn lemma_derived_append(rows: Seq<OrderItem>, more: Seq<OrderItem>, order_id: Id)
    requires
        all_derived(rows, order_id),
        all_derived(more, order_id),
    ensures
        all_derived(rows + more, order_id),
{
    assert forall|i: int| 0 <= i < (rows + more).len() implies is_derived(
        #[trigger] (rows + more)[i],
        order_id,
    ) by {
        if i < rows.len() {
            assert((rows + more)[i] == rows[i]);
        } else {
            assert((rows + more)[i] == more[i - rows.len()]);
        }
    }
}

proof fn lemma_discounts_derived(
    c: CatalogState,
    lines: Seq<OrderItem>,
    k: int,
    rows: Seq<OrderItem>,
    order_id: Id,
)
    requires
        0 <= k,
        all_derived(rows, order_id),
        forall|j: int| 0 <= j < lines.len() ==> (#[trigger] lines[j]).order_id == order_id,
        discounts_from(c, lines, k, rows) is Ok,
    ensures
        all_derived(discounts_from(c, lines, k, rows)->Ok_0, order_id),
    decreases lines.len() - k,
{
    if k < lines.len() {
        let discount = line_discount(c, lines[k])->Ok_0;
        assert(lines[k].order_id == order_id);
        lemma_derived_append(rows, discount_rows(lines[k], discount), order_id);
        lemma_discounts_derived(c, lines, k + 1, rows + discount_rows(lines[k], discount), order_id);
    }
}

proof fn lemma_fees_derived(
    c: CatalogState,
    lines: Seq<OrderItem>,
    k: int,
    p: FeeProgress,
    order_id: Id,
)
    requires
        0 <= k,
        all_derived(p.rows, order_id),
        forall|j: int| 0 <= j < lines.len() ==> (#[trigger] lines[j]).order_id == order_id,
        fees_from(c, lines, k, p) is Ok,
    ensures
        all_derived(fees_from(c, lines, k, p)->Ok_0, order_id),
    decreases lines.len() - k,
{
    if k < lines.len() {
        let next = fee_line(c, lines, k, p)->Ok_0;
        let line = lines[k];
        assert(line.order_id == order_id);
        assert(all_derived(next.rows, order_id)) by {
            if crate::fees::line_is_comp(c, line) == Ok::<bool, DatabaseError>(false) {
                let event = c.events[crate::store::index_of(c.events, line.event_id->0)->0];
                let discount = line_discount(c, line)->Ok_0;
                let net = line.unit_price_in_cents - discount;
                let unit = crate::fees::unit_fee_rows(c, line, event, net);
                lemma_derived_append(p.rows, unit, order_id);
                let mid = p.rows + unit;
                assert forall|i: int| 0 <= i < next.rows.len() implies is_derived(
                    #[trigger] next.rows[i],
                    order_id,
                ) by {
                    if i < mid.len() {
                        assert(next.rows[i] == mid[i]);
                    }
                }
            }
        }
        lemma_fees_derived(c, lines, k + 1, next, order_id);
    }
}

proof fn lemma_event_lines_order(lines: Seq<OrderItem>, k: int, order_id: Id)
    requires
        0 <= k <= lines.len(),
        forall|j: int| 0 <= j < lines.len() ==> (#[trigger] lines[j]).order_id == order_id,
    ensures
        forall|j: int|
            0 <= j < event_lines_upto(lines, k).len() ==> (#[trigger] event_lines_upto(
                lines,
                k,
            )[j]).order_id == order_id,
    decreases k,
{
    if k > 0 {
        lemma_event_lines_order(lines, k - 1, order_id);
        assert(lines[k - 1].order_id == order_id);
    }
}

proof fn lemma_plan_derived(c: CatalogState, order: Order, lines: Seq<OrderItem>, order_id: Id)
    requires
        forall|j: int| 0 <= j < lines.len() ==> (#[trigger] lines[j]).order_id == order_id,
        fee_plan(c, order, lines) is Ok,
    ensures
        all_derived(fee_plan(c, order, lines)->Ok_0, order_id),
{
    lemma_discounts_derived(c, lines, 0, Seq::empty(), order_id);
    if !order.box_office_pricing {
        let rows = discounts_from(c, lines, 0, Seq::empty())->Ok_0;
        lemma_event_lines_order(lines, lines.len() as int, order_id);
        lemma_fees_derived(
            c,
            event_lines(lines),
            0,
            FeeProgress { rows, charged: Set::empty(), priced: false },
            order_id,
        );
    }
}

/// The planned rows from the `k`th on, each under its identifier, the first
/// of which is `first`.
pub open spec fn stamped(rows: Seq<OrderItem>, k: int, first: Id) -> Seq<OrderItem> {
    Seq::new(
        (rows.len() - k) as nat,
        |i: int| OrderItem { id: (first + i) as Id, ..rows[k + i] },
    )
}

proof fn lemma_insert_shape(s: StoreState, rows: Seq<OrderItem>, k: int)
    requires
        0 <= k <= rows.len(),
        insert_planned_from(s, rows, k) is Ok,
    ensures
        s.next_id + (rows.len() - k) <= u128::MAX,
        insert_planned_from(s, rows, k)->Ok_0 == (StoreState {
            order_items: s.order_items + stamped(rows, k, s.next_id),
            next_id: (s.next_id + (rows.len() - k)) as Id,
            ..s
        }),
    decreases rows.len() - k,
{
    if k < rows.len() {
        let row = OrderItem { id: s.next_id, ..rows[k] };
        let s1 = StoreState {
            order_items: s.order_items.push(row),
            next_id: (s.next_id + 1) as Id,
            ..s
        };
        lemma_insert_shape(s1, rows, k + 1);
        assert(s.order_items.push(row) + stamped(rows, k + 1, s1.next_id) =~= s.order_items
            + stamped(rows, k, s.next_id));
    } else {
        assert(s.order_items + stamped(rows, k, s.next_id) =~= s.order_items);
    }
}

proof fn lemma_insert_valid(s: StoreState, rows: Seq<OrderItem>, k: int)
    requires
        0 <= k <= rows.len(),
        insert_planned_from(s, rows, k) is Ok,
        items_valid(s.order_items),
    ensures
        items_valid(insert_planned_from(s, rows, k)->Ok_0.order_items),
    decreases rows.len() - k,
{
    if k < rows.len() {
        let row = OrderItem { id: s.next_id, ..rows[k] };
        let s1 = StoreState {
            order_items: s.order_items.push(row),
            next_id: (s.next_id + 1) as Id,
            ..s
        };
        assert(items_valid(s1.order_items)) by {
            assert forall|i: int| 0 <= i < s1.order_items.len() implies item_constraint(
                #[trigger] s1.order_items[i],
            ) by {
                if i < s.order_items.len() {
                    assert(s1.order_items[i] == s.order_items[i]);
                }
            }
        }
        lemma_insert_valid(s1, rows, k + 1);
    }
}

/// A recomputation of the fees leaves the orders as they are, and the
/// constraint of the line table in force.
pub proof fn lemma_update_fees_keeps(c: CatalogState, s: StoreState, order: Order)
    requires
        spec_update_fees(c, s, order) is Ok,
    ensures
        spec_update_fees(c, s, order)->Ok_0.orders == s.orders,
        items_valid(s.order_items) ==> items_valid(spec_update_fees(c, s, order)->Ok_0.order_items),
{
    lemma_update_fees_shape(c, s, order);
    if items_valid(s.order_items) {
        let base = base_items(s.order_items, order.id);
        let n = s.order_items.len() as int;
        lemma_base_is_keep(s.order_items, order.id, n);
        lemma_keep_rows(s.order_items, not_derived(order.id), n);
        assert(items_valid(base)) by {
            assert forall|j: int| 0 <= j < base.len() implies item_constraint(#[trigger] base[j]) by {
                let i = choose|i: int| 0 <= i < n && s.order_items[i] == base[j];
                assert(item_constraint(s.order_items[i]));
            }
        }
        let rows = fee_plan(c, order, ticket_lines(s.order_items, order.id))->Ok_0;
        lemma_insert_valid(StoreState { order_items: base, ..s }, rows, 0);
    }
}

/// Two rows that differ in nothing but, perhaps, their identifier.
pub open spec fn same_but_id(a: OrderItem, b: OrderItem) -> bool {
    a == (OrderItem { id: a.id, ..b })
}

proof fn lemma_sum_same(a: Seq<OrderItem>, b: Seq<OrderItem>, k: int, acc: int)
    requires
        0 <= k,
        a.len() == b.len(),
        forall|i: int| 0 <= i < a.len() ==> same_but_id(#[trigger] a[i], b[i]),
    ensures
        sum_lines_from(a, k, acc) == sum_lines_from(b, k, acc),
    decreases a.len() - k,
{
    if k < a.len() {
        assert(same_but_id(a[k], b[k]));
        lemma_sum_same(a, b, k + 1, acc + crate::payments::line_total(a[k]));
    }
}

/// What a recomputation leaves of the table: the rows that are no fee or
/// discount line of the order, followed by the planned rows under new
/// identifiers.
pub proof fn lemma_update_fees_shape(c: CatalogState, s: StoreState, order: Order)
    requires
        spec_update_fees(c, s, order) is Ok,
    ensures
        ({
            let rows = fee_plan(c, order, ticket_lines(s.order_items, order.id))->Ok_0;
            let s1 = spec_update_fees(c, s, order)->Ok_0;
            &&& fee_plan(c, order, ticket_lines(s.order_items, order.id)) is Ok
            &&& all_derived(rows, order.id)
            &&& s.next_id + rows.len() <= u128::MAX
            &&& s1 == (StoreState {
                order_items: base_items(s.order_items, order.id) + stamped(rows, 0, s.next_id),
                next_id: (s.next_id + rows.len()) as Id,
                ..s
            })
            &&& base_items(s1.order_items, order.id) == base_items(s.order_items, order.id)
            &&& ticket_lines(s1.order_items, order.id) == ticket_lines(s.order_items, order.id)
            &&& items_of(s1.order_items, order.id) == items_of(
                base_items(s.order_items, order.id),
                order.id,
            ) + stamped(rows, 0, s.next_id)
        }),
{
    let oid = order.id;
    let lines = ticket_lines(s.order_items, oid);
    let rows = fee_plan(c, order, lines)->Ok_0;
    let base = base_items(s.order_items, oid);
    let n = s.order_items.len() as int;
    lemma_tickets_is_keep(s.order_items, oid, n);
    lemma_base_is_keep(s.order_items, oid, n);
    lemma_keep_rows(s.order_items, ticket_line_of(oid), n);
    lemma_keep_rows(s.order_items, not_derived(oid), n);
    assert forall|j: int| 0 <= j < lines.len() implies (#[trigger] lines[j]).order_id == oid by {
        assert(ticket_line_of(oid)(lines[j]));
    }
    lemma_plan_derived(c, order, lines, oid);
    let start = StoreState { order_items: base, ..s };
    lemma_insert_shape(start, rows, 0);
    let new_rows = stamped(rows, 0, s.next_id);
    let s1 = spec_update_fees(c, s, order)->Ok_0;
    assert(s1.order_items == base + new_rows);
    assert forall|i: int| 0 <= i < new_rows.len() implies is_derived(
        #[trigger] new_rows[i],
        oid,
    ) by {
        assert(is_derived(rows[i], oid));
    }
    assert forall|i: int| 0 <= i < base.len() implies !is_derived(#[trigger] base[i], oid) by {
        assert(not_derived(oid)(base[i]));
    }
    // the rows that are no fee or discount line
    lemma_base_is_keep(base + new_rows, oid, (base + new_rows).len() as int);
    lemma_keep_append(base, new_rows, not_derived(oid), new_rows.len() as int);
    assert forall|i: int| 0 <= i < new_rows.len() implies !not_derived(oid)(
        #[trigger] new_rows[i],
    ) by {
        assert(is_derived(new_rows[i], oid));
    }
    lemma_keep_none(new_rows, not_derived(oid), new_rows.len() as int);
    assert forall|i: int| 0 <= i < base.len() implies not_derived(oid)(#[trigger] base[i]) by {
        assert(!is_derived(base[i], oid));
    }
    lemma_keep_all(base, not_derived(oid), base.len() as int);
    assert(base.take(base.len() as int) =~= base);
    assert(keep(base, not_derived(oid)) + Seq::<OrderItem>::empty() =~= base);
    // the ticket lines
    lemma_tickets_is_keep(base + new_rows, oid, (base + new_rows).len() as int);
    lemma_keep_append(base, new_rows, ticket_line_of(oid), new_rows.len() as int);
    assert forall|i: int| 0 <= i < new_rows.len() implies !ticket_line_of(oid)(
        #[trigger] new_rows[i],
    ) by {
        assert(is_derived(new_rows[i], oid));
    }
    lemma_keep_none(new_rows, ticket_line_of(oid), new_rows.len() as int);
    assert forall|x: OrderItem| #[trigger] ticket_line_of(oid)(x) implies not_derived(oid)(x) by {}
    lemma_keep_of_keep(s.order_items, not_derived(oid), ticket_line_of(oid), n);
    assert(keep(base, ticket_line_of(oid)) + Seq::<OrderItem>::empty() =~= keep(
        base,
        ticket_line_of(oid),
    ));
    // the lines of the order
    lemma_items_is_keep(base + new_rows, oid, (base + new_rows).len() as int);
    lemma_items_is_keep(base, oid, base.len() as int);
    lemma_keep_append(base, new_rows, line_of(oid), new_rows.len() as int);
    assert forall|i: int| 0 <= i < new_rows.len() implies line_of(oid)(#[trigger] new_rows[i]) by {
        assert(is_derived(new_rows[i], oid));
    }
    lemma_keep_all(new_rows, line_of(oid), new_rows.len() as int);
    assert(new_rows.take(new_rows.len() as int) =~= new_rows);
}

proof fn lemma_inserted_rows_meet_constraint(s: StoreState, rows: Seq<OrderItem>, k: int)
    requires
        0 <= k <= rows.len(),
        insert_planned_from(s, rows, k) is Ok,
    ensures
        forall|i: int| k <= i < rows.len() ==> item_constraint(#[trigger] rows[i]),
    decreases rows.len() - k,
{
    if k < rows.len() {
        let row = OrderItem { id: s.next_id, ..rows[k] };
        let s1 = StoreState {
            order_items: s.order_items.push(row),
            next_id: (s.next_id + 1) as Id,
            ..s
        };
        lemma_inserted_rows_meet_constraint(s1, rows, k + 1);
    }
}

proof fn lemma_insert_succeeds(s: StoreState, rows: Seq<OrderItem>, k: int)
    requires
        0 <= k <= rows.len(),
        forall|i: int| k <= i < rows.len() ==> item_constraint(#[trigger] rows[i]),
        s.next_id + (rows.len() - k) <= u128::MAX,
    ensures
        insert_planned_from(s, rows, k) is Ok,
    decreases rows.len() - k,
{
    if k < rows.len() {
        assert(item_constraint(rows[k]));
        let row = OrderItem { id: s.next_id, ..rows[k] };
        let s1 = StoreState {
            order_items: s.order_items.push(row),
            next_id: (s.next_id + 1) as Id,
            ..s
        };
        lemma_insert_succeeds(s1, rows, k + 1);
    }
}

/// A recomputation that succeeded succeeds again on the cart as it left
/// it, as long as the store has an identifier left for every fee and
/// discount line.
pub proof fn lemma_update_fees_succeeds_again(c: CatalogState, s: StoreState, order: Order)
    requires
        spec_update_fees(c, s, order) is Ok,
        spec_update_fees(c, s, order)->Ok_0.next_id + fee_plan(
            c,
            order,
            ticket_lines(s.order_items, order.id),
        )->Ok_0.len() <= u128::MAX,
    ensures
        spec_update_fees(c, spec_update_fees(c, s, order)->Ok_0, order) is Ok,
{
    let s1 = spec_update_fees(c, s, order)->Ok_0;
    lemma_update_fees_shape(c, s, order);
    let rows = fee_plan(c, order, ticket_lines(s.order_items, order.id))->Ok_0;
    let base = base_items(s.order_items, order.id);
    lemma_inserted_rows_meet_constraint(StoreState { order_items: base, ..s }, rows, 0);
    lemma_insert_succeeds(
        StoreState { order_items: base_items(s1.order_items, order.id), ..s1 },
        rows,
        0,
    );
}

/// No two event fee lines among the rows are for the same event.
pub open spec fn event_fees_distinct(rows: Seq<OrderItem>) -> bool {
    forall|i: int, j: int|
        0 <= i < j < rows.len() && (#[trigger] rows[i]).item_type == OrderItemTypes::EventFees && (
        #[trigger] rows[j]).item_type == OrderItemTypes::EventFees ==> rows[i].event_id
            != rows[j].event_id
}

/// The event fee lines planned so far are for different events, each of
/// which is marked as charged.
pub open spec fn fees_in_order(p: FeeProgress) -> bool {
    &&& event_fees_distinct(p.rows)
    &&& forall|i: int|
        0 <= i < p.rows.len() && (#[trigger] p.rows[i]).item_type == OrderItemTypes::EventFees
            ==> p.rows[i].event_id is Some && p.charged.contains(p.rows[i].event_id->0)
}

proof fn lemma_fee_line_in_order(c: CatalogState, lines: Seq<OrderItem>, k: int, p: FeeProgress)
    requires
        0 <= k < lines.len(),
        lines[k].event_id is Some,
        fees_in_order(p),
        fee_line(c, lines, k, p) is Ok,
    ensures
        fees_in_order(fee_line(c, lines, k, p)->Ok_0),
{
    let line = lines[k];
    let next = fee_line(c, lines, k, p)->Ok_0;
    if crate::fees::line_is_comp(c, line) == Ok::<bool, DatabaseError>(false) {
        let at = crate::store::index_of(c.events, line.event_id->0)->0;
        crate::store::lemma_index_of(c.events, line.event_id->0);
        let event = c.events[at];
        let discount = line_discount(c, line)->Ok_0;
        let net = line.unit_price_in_cents - discount;
        let unit = crate::fees::unit_fee_rows(c, line, event, net);
        let mid = p.rows + unit;
        assert forall|i: int| 0 <= i < mid.len() && (#[trigger] mid[i]).item_type
            == OrderItemTypes::EventFees implies i < p.rows.len() && mid[i] == p.rows[i] by {
            if i >= p.rows.len() {
                assert(mid[i] == unit[i - p.rows.len()]);
            }
        }
        assert forall|i: int| 0 <= i < next.rows.len() && (#[trigger] next.rows[i]).item_type
            == OrderItemTypes::EventFees implies next.rows[i].event_id is Some
            && next.charged.contains(next.rows[i].event_id->0) && (i < p.rows.len()
            ==> next.rows[i] == p.rows[i] && p.charged.contains(next.rows[i].event_id->0)) && (i
            >= p.rows.len() ==> i == mid.len() && !p.charged.contains(next.rows[i].event_id->0)) by {
            if i < mid.len() {
                assert(next.rows[i] == mid[i]);
            }
        }
        assert(event_fees_distinct(next.rows)) by {
            assert forall|i: int, j: int|
                0 <= i < j < next.rows.len() && (#[trigger] next.rows[i]).item_type
                    == OrderItemTypes::EventFees && (#[trigger] next.rows[j]).item_type
                    == OrderItemTypes::EventFees implies next.rows[i].event_id
                != next.rows[j].event_id by {
                if j < p.rows.len() {
                    assert(p.rows[i].item_type == OrderItemTypes::EventFees);
                    assert(p.rows[j].item_type == OrderItemTypes::EventFees);
                }
            }
        }
    }
}

proof fn lemma_fees_in_order(c: CatalogState, lines: Seq<OrderItem>, k: int, p: FeeProgress)
    requires
        0 <= k,
        forall|i: int| 0 <= i < lines.len() ==> (#[trigger] lines[i]).event_id is Some,
        fees_in_order(p),
        fees_from(c, lines, k, p) is Ok,
    ensures
        event_fees_distinct(fees_from(c, lines, k, p)->Ok_0),
    decreases lines.len() - k,
{
    if k < lines.len() {
        lemma_fee_line_in_order(c, lines, k, p);
        lemma_fees_in_order(c, lines, k + 1, fee_line(c, lines, k, p)->Ok_0);
    }
}

proof fn lemma_discounts_only(c: CatalogState, lines: Seq<OrderItem>, k: int, rows: Seq<OrderItem>)
    requires
        0 <= k,
        forall|i: int| 0 <= i < rows.len() ==> (#[trigger] rows[i]).item_type
            == OrderItemTypes::Discount,
        discounts_from(c, lines, k, rows) is Ok,
    ensures
        forall|i: int|
            0 <= i < discounts_from(c, lines, k, rows)->Ok_0.len() ==> (#[trigger] discounts_from(
                c,
                lines,
                k,
                rows,
            )->Ok_0[i]).item_type == OrderItemTypes::Discount,
    decreases lines.len() - k,
{
    if k < lines.len() {
        let discount = line_discount(c, lines[k])->Ok_0;
        let more = discount_rows(lines[k], discount);
        assert forall|i: int| 0 <= i < (rows + more).len() implies (#[trigger] (rows + more)[i]).item_type
            == OrderItemTypes::Discount by {
            if i < rows.len() {
                assert((rows + more)[i] == rows[i]);
            } else {
                assert((rows + more)[i] == more[i - rows.len()]);
            }
        }
        lemma_discounts_only(c, lines, k + 1, rows + more);
    }
}

proof fn lemma_event_lines_have_event(lines: Seq<OrderItem>, k: int)
    requires
        0 <= k <= lines.len(),
    ensures
        forall|j: int|
            0 <= j < event_lines_upto(lines, k).len() ==> (#[trigger] event_lines_upto(
                lines,
                k,
            )[j]).event_id is Some,
    decreases k,
{
    if k > 0 {
        lemma_event_lines_have_event(lines, k - 1);
    }
}

/// One event fee per event. After a recomputation no two event fee lines
/// of the order are for the same event.
pub proof fn lemma_one_event_fee_per_event(
    c: CatalogState,
    s: StoreState,
    order: Order,
    i: int,
    j: int,
)
    requires
        spec_update_fees(c, s, order) is Ok,
        0 <= i < j < spec_update_fees(c, s, order)->Ok_0.order_items.len(),
        spec_update_fees(c, s, order)->Ok_0.order_items[i].order_id == order.id,
        spec_update_fees(c, s, order)->Ok_0.order_items[j].order_id == order.id,
        spec_update_fees(c, s, order)->Ok_0.order_items[i].item_type == OrderItemTypes::EventFees,
        spec_update_fees(c, s, order)->Ok_0.order_items[j].item_type == OrderItemTypes::EventFees,
    ensures
        spec_update_fees(c, s, order)->Ok_0.order_items[i].event_id != spec_update_fees(
            c,
            s,
            order,
        )->Ok_0.order_items[j].event_id,
{
    let s1 = spec_update_fees(c, s, order)->Ok_0;
    lemma_update_fees_shape(c, s, order);
    let lines = ticket_lines(s.order_items, order.id);
    let rows = fee_plan(c, order, lines)->Ok_0;
    let base = base_items(s.order_items, order.id);
    let n = s.order_items.len() as int;
    lemma_base_is_keep(s.order_items, order.id, n);
    lemma_keep_rows(s.order_items, not_derived(order.id), n);
    let new_rows = stamped(rows, 0, s.next_id);
    assert(s1.order_items == base + new_rows);
    assert forall|k: int| 0 <= k < base.len() implies !is_derived(#[trigger] base[k], order.id) by {
        assert(not_derived(order.id)(base[k]));
    }
    // both lines are planned rows
    if i < base.len() {
        assert(s1.order_items[i] == base[i]);
        assert(!is_derived(base[i], order.id));
    }
    if j < base.len() {
        assert(s1.order_items[j] == base[j]);
        assert(!is_derived(base[j], order.id));
    }
    assert(s1.order_items[i] == new_rows[i - base.len()]);
    assert(s1.order_items[j] == new_rows[j - base.len()]);
    let discounts = discounts_from(c, lines, 0, Seq::empty())->Ok_0;
    lemma_discounts_only(c, lines, 0, Seq::empty());
    if order.box_office_pricing {
        assert(rows[i - base.len()].item_type == OrderItemTypes::Discount);
    } else {
        lemma_event_lines_have_event(lines, lines.len() as int);
        let start = FeeProgress { rows: discounts, charged: Set::empty(), priced: false };
        assert(fees_in_order(start)) by {
            assert forall|a: int, b: int|
                0 <= a < b < discounts.len() && (#[trigger] discounts[a]).item_type
                    == OrderItemTypes::EventFees && (#[trigger] discounts[b]).item_type
                    == OrderItemTypes::EventFees implies discounts[a].event_id
                != discounts[b].event_id by {}
        }
        lemma_fees_in_order(c, event_lines(lines), 0, start);
        assert(rows[i - base.len()].item_type == OrderItemTypes::EventFees);
        assert(rows[j - base.len()].item_type == OrderItemTypes::EventFees);
    }
}

/// Idempotent fee recomputation. A second recomputation on a cart that did
/// not change since the first leaves the table as the first left it, but
/// for the identifiers of the fee and discount lines of the order, which are
/// new: as many rows, each what it was, and the same total. Nothing else in
/// the store changes but the next identifier.
pub proof fn lemma_update_fees_idempotent(c: CatalogState, s: StoreState, order: Order)
    requires
        spec_update_fees(c, s, order) is Ok,
        spec_update_fees(c, spec_update_fees(c, s, order)->Ok_0, order) is Ok,
    ensures
        ({
            let s1 = spec_update_fees(c, s, order)->Ok_0;
            let s2 = spec_update_fees(c, s1, order)->Ok_0;
            &&& s2.order_items.len() == s1.order_items.len()
            &&& forall|i: int|
                0 <= i < s1.order_items.len() ==> same_but_id(
                    #[trigger] s2.order_items[i],
                    s1.order_items[i],
                )
            &&& forall|i: int|
                0 <= i < s1.order_items.len() && !is_derived(#[trigger] s1.order_items[i], order.id)
                    ==> s2.order_items[i] == s1.order_items[i]
            &&& spec_calculate_total(s2, order.id) == spec_calculate_total(s1, order.id)
            &&& s2 == (StoreState { order_items: s2.order_items, next_id: s2.next_id, ..s1 })
        }),
{
    let s1 = spec_update_fees(c, s, order)->Ok_0;
    let s2 = spec_update_fees(c, s1, order)->Ok_0;
    lemma_update_fees_shape(c, s, order);
    lemma_update_fees_shape(c, s1, order);
    let rows = fee_plan(c, order, ticket_lines(s.order_items, order.id))->Ok_0;
    let base = base_items(s.order_items, order.id);
    let first = stamped(rows, 0, s.next_id);
    let second = stamped(rows, 0, s1.next_id);
    assert(s1.order_items == base + first);
    assert(s2.order_items == base + second);
    assert forall|i: int| 0 <= i < s1.order_items.len() implies same_but_id(
        #[trigger] s2.order_items[i],
        s1.order_items[i],
    ) by {
        if i >= base.len() {
            assert(s1.order_items[i] == first[i - base.len()]);
            assert(s2.order_items[i] == second[i - base.len()]);
        }
    }
    assert forall|i: int|
        0 <= i < s1.order_items.len() && !is_derived(
            #[trigger] s1.order_items[i],
            order.id,
        ) implies s2.order_items[i] == s1.order_items[i] by {
        if i >= base.len() {
            assert(s1.order_items[i] == first[i - base.len()]);
            assert(is_derived(rows[i - base.len()], order.id));
        }
    }
    let kept = items_of(base, order.id);
    let a = kept + first;
    let b = kept + second;
    assert forall|i: int| 0 <= i < a.len() implies same_but_id(#[trigger] a[i], b[i]) by {
        if i >= kept.len() {
            assert(a[i] == first[i - kept.len()]);
            assert(b[i] == second[i - kept.len()]);
        }
    }
    lemma_sum_same(a, b, 0, 0);
}

} // verus!
