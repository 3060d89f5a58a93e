//! What holds of an update of a cart whatever the store holds: the limit per
//! person is enforced, no ticket is made or lost and none is handed out
//! twice, the constraint of the line table stays in force, and an update
//! takes the lock once and makes the version that it was based on stale.

use vstd::prelude::*;
use crate::cart::{new_cart, spec_find_cart, spec_find_or_create_cart};
use crate::errors::DatabaseError;
use crate::fee_laws::lemma_update_fees_keeps;
use crate::fees::spec_update_fees;
use crate::inventory::{available_count, claimable_before};
use crate::inventory_laws::{
    kept_tickets, lemma_claims_keep_tickets, lemma_kept_tickets_counts, lemma_kept_tickets_trans,
    lemma_reserve_takes, standing_count, type_count, Standing,
};
use crate::model::{Order, OrderItem, TicketInstance, UpdateOrderItem, User};
use crate::order_items::{
    item_constraint, items_of, items_valid, spec_insert_item, spec_update_item, without_item,
    without_item_upto,
};
use crate::order_laws::lemma_index_after_update;
use crate::orders::{
    default_expiry, extend_reservations, spec_lock_version, spec_remove_expiry, spec_set_expiry,
    ticket_of_order, version_current,
};
use crate::quantities::{
    add_wishes_from, clear_lines_from, limits_from, match_lines_from, order_of_user, over_limit,
    quantity_before, resolve_from, spec_add_line, spec_after_lines, spec_clear_cart,
    spec_clear_line, spec_match_line, spec_offer, spec_quantity_for_user, spec_switch_pricing,
    spec_update_quantities, CartWork, LimitCheck, MatchData,
};
use crate::redemption::Redemption;
use crate::store::{index_from, index_of, lemma_index_of, CatalogState, StoreState};
use crate::types::{fits_i64, Id, OrderStatus, Timestamp};

verus! {

/// A check that the user is over is answered with the error for a limit:
/// the first such check from the `k`th on names it.
pub proof fn lemma_limits_reject(
    s: StoreState,
    user_id: Id,
    checks: Seq<LimitCheck>,
    now: Timestamp,
    k: int,
    j: int,
)
    requires
        0 <= k <= j < checks.len(),
        over_limit(s, user_id, checks[j], now),
    ensures
        limits_from(s, user_id, checks, now, k) matches Err(
            DatabaseError::LimitPerPersonExceeded { .. },
        ),
    decreases checks.len() - k,
{
    if k < j && !over_limit(s, user_id, checks[k], now) {
        lemma_limits_reject(s, user_id, checks, now, k + 1, j);
    }
}

/// Per-person limit, first part. Where, after the lines were brought to the
/// wished quantities, the user holds more of a ticket type than a limit that
/// the update must respect allows, the update ends with the error for a
/// limit.
pub proof fn lemma_over_limit_rejected(
    c: CatalogState,
    w: CartWork,
    order: Order,
    current_user_id: Id,
    now: Timestamp,
    j: int,
)
    requires
        0 <= j < w.checks.len(),
        over_limit(w.s, order.user_id, w.checks[j], now),
    ensures
        spec_after_lines(c, Ok(w), order, current_user_id, now) matches Err(
            DatabaseError::LimitPerPersonExceeded { .. },
        ),
{
    lemma_limits_reject(w.s, order.user_id, w.checks, now, 0, j);
}

proof fn lemma_index_after_push(items: Seq<OrderItem>, row: OrderItem, id: Id, from: int)
    requires
        0 <= from <= items.len(),
    ensures
        index_from(items.push(row), id, from) == match index_from(items, id, from) {
            Some(i) => Some(i),
            None => if row.id == id {
                Some(items.len() as int)
            } else {
                None
            },
        },
    decreases items.len() - from,
{
    if from < items.len() {
        assert(items.push(row)[from] == items[from]);
        if items[from].id != id {
            lemma_index_after_push(items, row, id, from + 1);
        }
    } else {
        assert(items.push(row)[from] == row);
        assert(index_from(items.push(row), id, from + 1) is None);
    }
}

/// No line and no ticket names the identifier that the next new row gets.
pub open spec fn next_id_unused(s: StoreState) -> bool {
    &&& forall|i: int| 0 <= i < s.order_items.len() ==> (#[trigger] s.order_items[i]).id != s.next_id
    &&& forall|i: int|
        0 <= i < s.ticket_instances.len() ==> (#[trigger] s.ticket_instances[i]).order_item_id
            != Some(s.next_id)
}

proof fn lemma_add_line_counts_before(
    c: CatalogState,
    s: StoreState,
    order: Order,
    wish: MatchData,
    box_office_pricing: bool,
    now: Timestamp,
    user_id: Id,
    k: int,
)
    requires
        spec_add_line(c, s, order, wish, box_office_pricing, now) is Ok,
        next_id_unused(s),
        order.expires_at is Some && order.expires_at->0 > now,
        index_of(s.orders, order.id) is Some,
        order_of_user(s.orders[index_of(s.orders, order.id)->0], user_id),
        0 <= k <= s.ticket_instances.len(),
    ensures
        ({
            let s1 = spec_add_line(c, s, order, wish, box_office_pricing, now)->Ok_0.0;
            let free = claimable_before(
                s.ticket_instances,
                wish.ticket_type_id,
                wish.redemption.hold_id(),
                now,
                k,
            );
            quantity_before(s1, user_id, wish.ticket_type_id, wish.redemption.hold_id(), now, k)
                == quantity_before(
                s,
                user_id,
                wish.ticket_type_id,
                wish.redemption.hold_id(),
                now,
                k,
            ) + if free < wish.quantity {
                free
            } else {
                wish.quantity as nat
            }
        }),
    decreases k,
{
    if k > 0 {
        lemma_add_line_counts_before(c, s, order, wish, box_office_pricing, now, user_id, k - 1);
        let s1 = spec_add_line(c, s, order, wish, box_office_pricing, now)->Ok_0.0;
        let new_id = s.next_id;
        let t = s.ticket_instances[k - 1];
        let t1 = s1.ticket_instances[k - 1];
        let item = s1.order_items[s.order_items.len() as int];
        assert(s1.order_items == s.order_items.push(item));
        lemma_index_of(c.ticket_types, wish.ticket_type_id);
        lemma_index_of(s.order_items, new_id);
        lemma_index_after_push(s.order_items, item, new_id, 0);
        if t.order_item_id is Some {
            lemma_index_after_push(s.order_items, item, t.order_item_id->0, 0);
            lemma_index_of(s.order_items, t.order_item_id->0);
        }
    }
}

/// Per-person limit, second part. A new line for a cart of the user adds
/// exactly its quantity to what the user holds of the ticket type under the
/// hold, provided the cart runs out after `now` and the identifier of the
/// line is new. So a user who holds `E` and asks for `Q` more holds `E + Q`
/// when the limit is checked, and is refused where that is above the limit.
pub proof fn lemma_add_line_counts(
    c: CatalogState,
    s: StoreState,
    order: Order,
    wish: MatchData,
    box_office_pricing: bool,
    now: Timestamp,
    user_id: Id,
)
    requires
        spec_add_line(c, s, order, wish, box_office_pricing, now) is Ok,
        next_id_unused(s),
        order.expires_at is Some && order.expires_at->0 > now,
        index_of(s.orders, order.id) is Some,
        order_of_user(s.orders[index_of(s.orders, order.id)->0], user_id),
    ensures
        ({
            let (s1, check) = spec_add_line(c, s, order, wish, box_office_pricing, now)->Ok_0;
            &&& check.ticket_type_id == wish.ticket_type_id
            &&& check.hold_id == wish.redemption.hold_id()
            &&& spec_quantity_for_user(s1, user_id, check.ticket_type_id, check.hold_id, now)
                == spec_quantity_for_user(s, user_id, check.ticket_type_id, check.hold_id, now)
                + wish.quantity
        }),
{
    lemma_index_of(c.ticket_types, wish.ticket_type_id);
    lemma_add_line_counts_before(
        c,
        s,
        order,
        wish,
        box_office_pricing,
        now,
        user_id,
        s.ticket_instances.len() as int,
    );
}

/// The test for a row that stays when the item `id` is deleted.
pub open spec fn survivor_of(id: Id) -> spec_fn(OrderItem) -> bool {
    |item: OrderItem| crate::order_items::survives(item, id)
}

proof fn lemma_without_is_keep(items: Seq<OrderItem>, id: Id, k: int)
    ensures
        without_item_upto(items, id, k) == crate::filters::keep_upto(items, survivor_of(id), k),
    decreases k,
{
    if k > 0 {
        lemma_without_is_keep(items, id, k - 1);
    }
}

proof fn lemma_without_item_valid(items: Seq<OrderItem>, id: Id)
    requires
        items_valid(items),
    ensures
        items_valid(without_item(items, id)),
{
    let n = items.len() as int;
    let out = without_item(items, id);
    lemma_without_is_keep(items, id, n);
    crate::filters::lemma_keep_rows(items, survivor_of(id), n);
    assert forall|j: int| 0 <= j < out.len() implies item_constraint(#[trigger] out[j]) by {
        let i = choose|i: int| 0 <= i < n && items[i] == out[j];
        assert(item_constraint(items[i]));
    }
}

proof fn lemma_update_item_valid(items: Seq<OrderItem>, item: OrderItem)
    requires
        items_valid(items),
        spec_update_item(items, item) is Ok,
    ensures
        items_valid(spec_update_item(items, item)->Ok_0),
{
    lemma_index_of(items, item.id);
}

proof fn lemma_insert_item_valid(items: Seq<OrderItem>, item: OrderItem)
    requires
        items_valid(items),
        spec_insert_item(items, item) is Ok,
    ensures
        items_valid(spec_insert_item(items, item)->Ok_0),
{
    let out = items.push(item);
    assert forall|i: int| 0 <= i < out.len() implies item_constraint(#[trigger] out[i]) by {
        if i < items.len() {
            assert(out[i] == items[i]);
        }
    }
}

proof fn lemma_clear_line_keeps(s: StoreState, order: Order, line: OrderItem)
    requires
        spec_clear_line(s, order, line) is Ok,
    ensures
        spec_clear_line(s, order, line)->Ok_0.orders == s.orders,
        items_valid(s.order_items) ==> items_valid(spec_clear_line(s, order, line)->Ok_0.order_items),
{
    if items_valid(s.order_items) {
        lemma_without_item_valid(s.order_items, line.id);
    }
}

proof fn lemma_clear_lines_keep(s: StoreState, order: Order, lines: Seq<OrderItem>, k: int)
    requires
        0 <= k,
        clear_lines_from(s, order, lines, k) is Ok,
    ensures
        clear_lines_from(s, order, lines, k)->Ok_0.orders == s.orders,
        items_valid(s.order_items) ==> items_valid(
            clear_lines_from(s, order, lines, k)->Ok_0.order_items,
        ),
    decreases lines.len() - k,
{
    if k < lines.len() {
        lemma_clear_line_keeps(s, order, lines[k]);
        lemma_clear_lines_keep(spec_clear_line(s, order, lines[k])->Ok_0, order, lines, k + 1);
    }
}

proof fn lemma_add_line_keeps(
    c: CatalogState,
    s: StoreState,
    order: Order,
    wish: MatchData,
    box_office_pricing: bool,
    now: Timestamp,
)
    requires
        spec_add_line(c, s, order, wish, box_office_pricing, now) is Ok,
    ensures
        spec_add_line(c, s, order, wish, box_office_pricing, now)->Ok_0.0.orders == s.orders,
        items_valid(s.order_items) ==> items_valid(
            spec_add_line(c, s, order, wish, box_office_pricing, now)->Ok_0.0.order_items,
        ),
{
    if items_valid(s.order_items) {
        let s1 = spec_add_line(c, s, order, wish, box_office_pricing, now)->Ok_0.0;
        let item = s1.order_items[s.order_items.len() as int];
        assert(s1.order_items == s.order_items.push(item));
        lemma_insert_item_valid(s.order_items, item);
    }
}

proof fn lemma_match_line_keeps(
    c: CatalogState,
    w: CartWork,
    order: Order,
    line: OrderItem,
    box_office_pricing: bool,
    remove_others: bool,
    now: Timestamp,
)
    requires
        spec_match_line(c, w, order, line, box_office_pricing, remove_others, now) is Ok,
    ensures
        spec_match_line(c, w, order, line, box_office_pricing, remove_others, now)->Ok_0.s.orders
            == w.s.orders,
        items_valid(w.s.order_items) ==> items_valid(
            spec_match_line(
                c,
                w,
                order,
                line,
                box_office_pricing,
                remove_others,
                now,
            )->Ok_0.s.order_items,
        ),
{
    if items_valid(w.s.order_items) && line.item_type == crate::types::OrderItemTypes::Tickets {
        lemma_without_item_valid(w.s.order_items, line.id);
        match crate::quantities::matching_wish_from(w.wishes, line, 0) {
            Some(j) => {
                let wish = w.wishes[j];
                if line.quantity > wish.quantity {
                    let changed = OrderItem { quantity: wish.quantity as i64, ..line };
                    lemma_update_item_valid(w.s.order_items, changed);
                    lemma_without_item_valid(spec_update_item(w.s.order_items, changed)->Ok_0, line.id);
                } else if line.quantity < wish.quantity {
                    let (pricing, ticket_type) = crate::quantities::spec_offer(
                        c,
                        wish.ticket_type_id,
                        box_office_pricing,
                        now,
                    )->Ok_0;
                    if line.ticket_pricing_id != Some(pricing.id) {
                        let s1 = crate::quantities::spec_remove_line(
                            w.s,
                            order,
                            line,
                            line.quantity as int,
                        )->Ok_0;
                        lemma_add_line_keeps(c, s1, order, wish, box_office_pricing, now);
                    } else {
                        let changed = OrderItem { quantity: wish.quantity as i64, ..line };
                        lemma_update_item_valid(w.s.order_items, changed);
                    }
                }
            },
            None => {},
        }
    } else if line.item_type == crate::types::OrderItemTypes::Tickets {
        match crate::quantities::matching_wish_from(w.wishes, line, 0) {
            Some(j) => {
                let wish = w.wishes[j];
                if line.quantity < wish.quantity {
                    let (pricing, ticket_type) = crate::quantities::spec_offer(
                        c,
                        wish.ticket_type_id,
                        box_office_pricing,
                        now,
                    )->Ok_0;
                    if line.ticket_pricing_id != Some(pricing.id) {
                        let s1 = crate::quantities::spec_remove_line(
                            w.s,
                            order,
                            line,
                            line.quantity as int,
                        )->Ok_0;
                        lemma_add_line_keeps(c, s1, order, wish, box_office_pricing, now);
                    }
                }
            },
            None => {},
        }
    }
}

proof fn lemma_match_lines_keep(
    c: CatalogState,
    w: CartWork,
    order: Order,
    lines: Seq<OrderItem>,
    box_office_pricing: bool,
    remove_others: bool,
    now: Timestamp,
    k: int,
)
    requires
        0 <= k,
        match_lines_from(c, w, order, lines, box_office_pricing, remove_others, now, k) is Ok,
    ensures
        match_lines_from(c, w, order, lines, box_office_pricing, remove_others, now, k)->Ok_0.s.orders
            == w.s.orders,
        items_valid(w.s.order_items) ==> items_valid(
            match_lines_from(
                c,
                w,
                order,
                lines,
                box_office_pricing,
                remove_others,
                now,
                k,
            )->Ok_0.s.order_items,
        ),
    decreases lines.len() - k,
{
    if k < lines.len() {
        lemma_match_line_keeps(c, w, order, lines[k], box_office_pricing, remove_others, now);
        lemma_match_lines_keep(
            c,
            spec_match_line(c, w, order, lines[k], box_office_pricing, remove_others, now)->Ok_0,
            order,
            lines,
            box_office_pricing,
            remove_others,
            now,
            k + 1,
        );
    }
}

proof fn lemma_add_wishes_keep(
    c: CatalogState,
    w: CartWork,
    order: Order,
    box_office_pricing: bool,
    now: Timestamp,
    k: int,
)
    requires
        0 <= k,
        add_wishes_from(c, w, order, box_office_pricing, now, k) is Ok,
    ensures
        add_wishes_from(c, w, order, box_office_pricing, now, k)->Ok_0.s.orders == w.s.orders,
        items_valid(w.s.order_items) ==> items_valid(
            add_wishes_from(c, w, order, box_office_pricing, now, k)->Ok_0.s.order_items,
        ),
    decreases w.wishes.len() - k,
{
    if k < w.wishes.len() {
        if w.wishes[k].quantity == 0 || !w.wishes[k].open {
            lemma_add_wishes_keep(c, w, order, box_office_pricing, now, k + 1);
        } else {
            lemma_add_line_keeps(c, w.s, order, w.wishes[k], box_office_pricing, now);
            let (s1, check) = spec_add_line(c, w.s, order, w.wishes[k], box_office_pricing, now)->Ok_0;
            lemma_add_wishes_keep(
                c,
                CartWork { s: s1, wishes: w.wishes, checks: w.checks.push(check) },
                order,
                box_office_pricing,
                now,
                k + 1,
            );
        }
    }
}

/// What an order and the store have in common while an update runs: the
/// row of the order carries the version of the caller's value.
pub open spec fn in_step(s: StoreState, order: Order, id: Id, version: i64) -> bool {
    order.id == id && order.version > version && version_current(s, order)
}

proof fn lemma_lock_step(s: StoreState, order: Order, now: Timestamp, version: i64)
    requires
        spec_lock_version(s, order, now) is Ok,
        order.version >= version,
    ensures
        in_step(
            spec_lock_version(s, order, now)->Ok_0.0,
            spec_lock_version(s, order, now)->Ok_0.1,
            order.id,
            version,
        ),
        spec_lock_version(s, order, now)->Ok_0.0.order_items == s.order_items,
{
    let i = index_of(s.orders, order.id)->0;
    lemma_index_of(s.orders, order.id);
    let row = Order { version: (order.version + 1) as i64, updated_at: now, ..s.orders[i] };
    lemma_index_after_update(s.orders, i, row, order.id, 0);
}

proof fn lemma_expiry_steps(
    s: StoreState,
    order: Order,
    current_user_id: Id,
    now: Timestamp,
    version: i64,
)
    requires
        in_step(s, order, order.id, version),
    ensures
        spec_set_expiry(s, order, Some(current_user_id), None, now) is Ok ==> in_step(
            spec_set_expiry(s, order, Some(current_user_id), None, now)->Ok_0.0,
            spec_set_expiry(s, order, Some(current_user_id), None, now)->Ok_0.1,
            order.id,
            version,
        ) && spec_set_expiry(s, order, Some(current_user_id), None, now)->Ok_0.0.order_items
            == s.order_items && spec_set_expiry(
            s,
            order,
            Some(current_user_id),
            None,
            now,
        )->Ok_0.1.version == order.version,
        spec_remove_expiry(s, order, current_user_id, now) is Ok ==> in_step(
            spec_remove_expiry(s, order, current_user_id, now)->Ok_0.0,
            spec_remove_expiry(s, order, current_user_id, now)->Ok_0.1,
            order.id,
            version,
        ) && spec_remove_expiry(s, order, current_user_id, now)->Ok_0.0.order_items
            == s.order_items && spec_remove_expiry(s, order, current_user_id, now)->Ok_0.1.version
            == order.version,
{
    let i = index_of(s.orders, order.id)->0;
    lemma_index_of(s.orders, order.id);
    if spec_set_expiry(s, order, Some(current_user_id), None, now) is Ok {
        let new_expiry = crate::orders::default_expiry(now) as i64;
        let row = Order { expires_at: Some(new_expiry), updated_at: now, ..s.orders[i] };
        lemma_index_after_update(s.orders, i, row, order.id, 0);
    }
    if spec_remove_expiry(s, order, current_user_id, now) is Ok {
        let row = Order { expires_at: None, updated_at: now, ..s.orders[i] };
        lemma_index_after_update(s.orders, i, row, order.id, 0);
    }
}

proof fn lemma_switch_step(
    s: StoreState,
    order: Order,
    current_user_id: Id,
    box_office_pricing: bool,
    now: Timestamp,
    version: i64,
)
    requires
        in_step(s, order, order.id, version),
        spec_switch_pricing(s, order, current_user_id, box_office_pricing, now) is Ok,
    ensures
        in_step(
            spec_switch_pricing(s, order, current_user_id, box_office_pricing, now)->Ok_0.0,
            spec_switch_pricing(s, order, current_user_id, box_office_pricing, now)->Ok_0.1,
            order.id,
            version,
        ),
        spec_switch_pricing(s, order, current_user_id, box_office_pricing, now)->Ok_0.1.version
            == order.version,
        items_valid(s.order_items) ==> items_valid(
            spec_switch_pricing(
                s,
                order,
                current_user_id,
                box_office_pricing,
                now,
            )->Ok_0.0.order_items,
        ),
{
    if box_office_pricing != order.box_office_pricing {
        let lines = items_of(s.order_items, order.id);
        lemma_clear_lines_keep(s, order, lines, 0);
        let s2 = clear_lines_from(s, order, lines, 0)->Ok_0;
        assert(version_current(s2, order));
        let i = index_of(s2.orders, order.id)->0;
        lemma_index_of(s2.orders, order.id);
        let row = Order { box_office_pricing, updated_at: now, ..s2.orders[i] };
        lemma_index_after_update(s2.orders, i, row, order.id, 0);
    }
}

/// An update of the quantities that succeeds leaves the constraint of the
/// line table in force: where no line counted more refunded units than
/// units before, none does after. It takes the lock exactly once: the row
/// of the order and the value that the caller now holds carry the version
/// that the update was based on, and one more. So whoever still holds the
/// old version is refused when he locks.
pub proof fn lemma_update_quantities_keeps(
    c: CatalogState,
    s: StoreState,
    order: Order,
    current_user_id: Id,
    items: Seq<UpdateOrderItem>,
    box_office_pricing: bool,
    remove_others: bool,
    now: Timestamp,
)
    requires
        spec_update_quantities(
            c,
            s,
            order,
            current_user_id,
            items,
            box_office_pricing,
            remove_others,
            now,
        ) is Ok,
    ensures
        ({
            let (s1, o1) = spec_update_quantities(
                c,
                s,
                order,
                current_user_id,
                items,
                box_office_pricing,
                remove_others,
                now,
            )->Ok_0;
            &&& o1.id == order.id
            &&& o1.version == order.version + 1
            &&& version_current(s1, o1)
            &&& !version_current(s1, order)
            &&& spec_lock_version(s1, order, now) == Err::<(StoreState, Order), DatabaseError>(
                DatabaseError::OrderVersionMismatch,
            )
            &&& (items_valid(s.order_items) ==> items_valid(s1.order_items))
        }),
{
    let version = order.version;
    let (sa, oa) = spec_lock_version(s, order, now)->Ok_0;
    lemma_lock_step(s, order, now, version);
    assert(in_step(sa, oa, order.id, version));
    let (sb, ob) = spec_switch_pricing(sa, oa, current_user_id, box_office_pricing, now)->Ok_0;
    lemma_switch_step(sa, oa, current_user_id, box_office_pricing, now, version);
    let wishes = resolve_from(c, items, now, 0, Seq::empty())->Ok_0;
    let start = CartWork { s: sb, wishes, checks: Seq::empty() };
    let lines = items_of(sb.order_items, ob.id);
    lemma_match_lines_keep(c, start, ob, lines, box_office_pricing, remove_others, now, 0);
    let w = match_lines_from(c, start, ob, lines, box_office_pricing, remove_others, now, 0)->Ok_0;
    assert(in_step(w.s, ob, order.id, version));
    lemma_expiry_steps(w.s, ob, current_user_id, now, version);
    let (sc, oc) = if ob.expires_at is None {
        spec_set_expiry(w.s, ob, Some(current_user_id), None, now)->Ok_0
    } else {
        (w.s, ob)
    };
    assert(in_step(sc, oc, order.id, version));
    let mid = CartWork { s: sc, ..w };
    lemma_add_wishes_keep(c, mid, oc, box_office_pricing, now, 0);
    let w2 = add_wishes_from(c, mid, oc, box_office_pricing, now, 0)->Ok_0;
    assert(in_step(w2.s, oc, order.id, version));
    lemma_update_fees_keeps(c, w2.s, oc);
    let sd = spec_update_fees(c, w2.s, oc)->Ok_0;
    assert(in_step(sd, oc, order.id, version));
    lemma_expiry_steps(sd, oc, current_user_id, now, version);
}

/// A cart that was cleared makes the version that the clearing was based on
/// stale, and leaves the constraint of the line table in force.
pub proof fn lemma_clear_cart_keeps(s: StoreState, order: Order, now: Timestamp)
    requires
        spec_clear_cart(s, order, now) is Ok,
    ensures
        ({
            let (s1, o1) = spec_clear_cart(s, order, now)->Ok_0;
            &&& o1.id == order.id
            &&& o1.version > order.version
            &&& version_current(s1, o1)
            &&& !version_current(s1, order)
            &&& (items_valid(s.order_items) ==> items_valid(s1.order_items))
        }),
{
    let (sa, oa) = spec_lock_version(s, order, now)->Ok_0;
    lemma_lock_step(s, order, now, order.version);
    lemma_clear_lines_keep(sa, oa, items_of(sa.order_items, oa.id), 0);
}

proof fn lemma_order_index_after_push(orders: Seq<Order>, row: Order, id: Id, from: int)
    requires
        0 <= from <= orders.len(),
    ensures
        index_from(orders.push(row), id, from) == match index_from(orders, id, from) {
            Some(i) => Some(i),
            None => if row.id == id {
                Some(orders.len() as int)
            } else {
                None
            },
        },
    decreases orders.len() - from,
{
    if from < orders.len() {
        assert(orders.push(row)[from] == orders[from]);
        if orders[from].id != id {
            lemma_order_index_after_push(orders, row, id, from + 1);
        }
    } else {
        assert(orders.push(row)[from] == row);
        assert(index_from(orders.push(row), id, from + 1) is None);
    }
}

/// One open cart per user. Once a cart was made for a user, whoever asks
/// for the cart of that user is given that cart, and nothing is made or
/// changed, whichever copy of the user row he holds and whenever he asks,
/// as long as the cart stays an open draft. The identifier of the new cart
/// must be new among the orders.
pub proof fn lemma_cart_made_once(
    s: StoreState,
    user: User,
    now: Timestamp,
    other: User,
    later: Timestamp,
)
    requires
        spec_find_cart(s, user.id, now) is None,
        spec_find_or_create_cart(s, user, now) is Ok,
        forall|i: int| 0 <= i < s.orders.len() ==> (#[trigger] s.orders[i]).id != s.next_id,
        other.id == user.id,
    ensures
        ({
            let (s1, cart) = spec_find_or_create_cart(s, user, now)->Ok_0;
            &&& cart == new_cart(s.next_id, user.id, now)
            &&& spec_find_cart(s1, user.id, later) == Some(cart)
            &&& spec_find_or_create_cart(s1, other, later) == Ok::<
                (StoreState, Order),
                DatabaseError,
            >((s1, cart))
        }),
{
    let id = s.next_id;
    let cart = new_cart(id, user.id, now);
    let u = index_of(s.users, user.id)->0;
    lemma_index_of(s.users, user.id);
    let row = User { last_cart_id: Some(id), updated_at: now, ..s.users[u] };
    lemma_index_after_update(s.users, u, row, user.id, 0);
    lemma_index_of(s.orders, id);
    lemma_order_index_after_push(s.orders, cart, id, 0);
}

proof fn lemma_remove_line_tickets(s: StoreState, order: Order, line: OrderItem, quantity: int)
    requires
        crate::quantities::spec_remove_line(s, order, line, quantity) is Ok,
    ensures
        kept_tickets(
            s.ticket_instances,
            crate::quantities::spec_remove_line(s, order, line, quantity)->Ok_0.ticket_instances,
        ),
{
    lemma_claims_keep_tickets(s.ticket_instances, line.id, None, 0, None, quantity as nat, 0);
}

proof fn lemma_add_line_tickets(
    c: CatalogState,
    s: StoreState,
    order: Order,
    wish: MatchData,
    box_office_pricing: bool,
    now: Timestamp,
)
    requires
        spec_add_line(c, s, order, wish, box_office_pricing, now) is Ok,
    ensures
        kept_tickets(
            s.ticket_instances,
            spec_add_line(c, s, order, wish, box_office_pricing, now)->Ok_0.0.ticket_instances,
        ),
{
    lemma_claims_keep_tickets(
        s.ticket_instances,
        s.next_id,
        order.expires_at,
        wish.ticket_type_id,
        wish.redemption.hold_id(),
        wish.quantity as nat,
        now,
    );
}

proof fn lemma_kept_self(ts: Seq<TicketInstance>)
    ensures
        kept_tickets(ts, ts),
{
}

proof fn lemma_clear_lines_tickets(s: StoreState, order: Order, lines: Seq<OrderItem>, k: int)
    requires
        0 <= k,
        clear_lines_from(s, order, lines, k) is Ok,
    ensures
        kept_tickets(s.ticket_instances, clear_lines_from(s, order, lines, k)->Ok_0.ticket_instances),
    decreases lines.len() - k,
{
    lemma_kept_self(s.ticket_instances);
    if k < lines.len() {
        let s1 = spec_clear_line(s, order, lines[k])->Ok_0;
        if lines[k].item_type == crate::types::OrderItemTypes::Tickets {
            lemma_remove_line_tickets(
                s,
                order,
                lines[k],
                crate::inventory::linked_count(s.ticket_instances, lines[k].id) as int,
            );
        }
        lemma_clear_lines_tickets(s1, order, lines, k + 1);
        lemma_kept_tickets_trans(
            s.ticket_instances,
            s1.ticket_instances,
            clear_lines_from(s, order, lines, k)->Ok_0.ticket_instances,
        );
    }
}

proof fn lemma_match_line_tickets(
    c: CatalogState,
    w: CartWork,
    order: Order,
    line: OrderItem,
    box_office_pricing: bool,
    remove_others: bool,
    now: Timestamp,
)
    requires
        spec_match_line(c, w, order, line, box_office_pricing, remove_others, now) is Ok,
    ensures
        kept_tickets(
            w.s.ticket_instances,
            spec_match_line(
                c,
                w,
                order,
                line,
                box_office_pricing,
                remove_others,
                now,
            )->Ok_0.s.ticket_instances,
        ),
{
    lemma_kept_self(w.s.ticket_instances);
    if line.item_type == crate::types::OrderItemTypes::Tickets {
        match crate::quantities::matching_wish_from(w.wishes, line, 0) {
            Some(j) => {
                let wish = w.wishes[j];
                if line.quantity > wish.quantity {
                    lemma_claims_keep_tickets(
                        w.s.ticket_instances,
                        line.id,
                        None,
                        0,
                        None,
                        (line.quantity - wish.quantity) as nat,
                        0,
                    );
                } else if line.quantity < wish.quantity {
                    let (pricing, ticket_type) = crate::quantities::spec_offer(
                        c,
                        wish.ticket_type_id,
                        box_office_pricing,
                        now,
                    )->Ok_0;
                    if line.ticket_pricing_id != Some(pricing.id) {
                        let s1 = crate::quantities::spec_remove_line(
                            w.s,
                            order,
                            line,
                            line.quantity as int,
                        )->Ok_0;
                        lemma_remove_line_tickets(w.s, order, line, line.quantity as int);
                        lemma_add_line_tickets(c, s1, order, wish, box_office_pricing, now);
                        lemma_kept_tickets_trans(
                            w.s.ticket_instances,
                            s1.ticket_instances,
                            spec_add_line(
                                c,
                                s1,
                                order,
                                wish,
                                box_office_pricing,
                                now,
                            )->Ok_0.0.ticket_instances,
                        );
                    } else {
                        lemma_claims_keep_tickets(
                            w.s.ticket_instances,
                            line.id,
                            order.expires_at,
                            wish.ticket_type_id,
                            wish.redemption.hold_id(),
                            (wish.quantity - line.quantity) as nat,
                            now,
                        );
                    }
                }
            },
            None => {
                if remove_others {
                    lemma_remove_line_tickets(w.s, order, line, line.quantity as int);
                }
            },
        }
    }
}

proof fn lemma_match_lines_tickets(
    c: CatalogState,
    w: CartWork,
    order: Order,
    lines: Seq<OrderItem>,
    box_office_pricing: bool,
    remove_others: bool,
    now: Timestamp,
    k: int,
)
    requires
        0 <= k,
        match_lines_from(c, w, order, lines, box_office_pricing, remove_others, now, k) is Ok,
    ensures
        kept_tickets(
            w.s.ticket_instances,
            match_lines_from(
                c,
                w,
                order,
                lines,
                box_office_pricing,
                remove_others,
                now,
                k,
            )->Ok_0.s.ticket_instances,
        ),
    decreases lines.len() - k,
{
    lemma_kept_self(w.s.ticket_instances);
    if k < lines.len() {
        let w1 = spec_match_line(c, w, order, lines[k], box_office_pricing, remove_others, now)->Ok_0;
        lemma_match_line_tickets(c, w, order, lines[k], box_office_pricing, remove_others, now);
        lemma_match_lines_tickets(c, w1, order, lines, box_office_pricing, remove_others, now, k + 1);
        lemma_kept_tickets_trans(
            w.s.ticket_instances,
            w1.s.ticket_instances,
            match_lines_from(
                c,
                w,
                order,
                lines,
                box_office_pricing,
                remove_others,
                now,
                k,
            )->Ok_0.s.ticket_instances,
        );
    }
}

proof fn lemma_add_wishes_tickets(
    c: CatalogState,
    w: CartWork,
    order: Order,
    box_office_pricing: bool,
    now: Timestamp,
    k: int,
)
    requires
        0 <= k,
        add_wishes_from(c, w, order, box_office_pricing, now, k) is Ok,
    ensures
        kept_tickets(
            w.s.ticket_instances,
            add_wishes_from(c, w, order, box_office_pricing, now, k)->Ok_0.s.ticket_instances,
        ),
    decreases w.wishes.len() - k,
{
    lemma_kept_self(w.s.ticket_instances);
    if k < w.wishes.len() {
        if w.wishes[k].quantity == 0 || !w.wishes[k].open {
            lemma_add_wishes_tickets(c, w, order, box_office_pricing, now, k + 1);
        } else {
            lemma_add_line_tickets(c, w.s, order, w.wishes[k], box_office_pricing, now);
            let (s1, check) = spec_add_line(c, w.s, order, w.wishes[k], box_office_pricing, now)->Ok_0;
            let w1 = CartWork { s: s1, wishes: w.wishes, checks: w.checks.push(check) };
            lemma_add_wishes_tickets(c, w1, order, box_office_pricing, now, k + 1);
            lemma_kept_tickets_trans(
                w.s.ticket_instances,
                s1.ticket_instances,
                add_wishes_from(c, w, order, box_office_pricing, now, k)->Ok_0.s.ticket_instances,
            );
        }
    }
}

/// Inventory conservation for an update of a cart. An update that succeeds
/// neither makes nor loses a ticket: the tickets are the same tickets, of
/// the same types and holds, and the same of them are bought, used and
/// void. So at every moment `at` the number of tickets of a type is what it
/// was, its free, held, bought, used and void tickets add up to it, and
/// the held and the bought together are no more than it. An update that
/// fails changes nothing at all.
pub proof fn lemma_update_quantities_conserves(
    c: CatalogState,
    s: StoreState,
    order: Order,
    current_user_id: Id,
    items: Seq<UpdateOrderItem>,
    box_office_pricing: bool,
    remove_others: bool,
    now: Timestamp,
    ticket_type_id: Id,
    at: Timestamp,
)
    requires
        spec_update_quantities(
            c,
            s,
            order,
            current_user_id,
            items,
            box_office_pricing,
            remove_others,
            now,
        ) is Ok,
    ensures
        ({
            let after = spec_update_quantities(
                c,
                s,
                order,
                current_user_id,
                items,
                box_office_pricing,
                remove_others,
                now,
            )->Ok_0.0.ticket_instances;
            let before = s.ticket_instances;
            &&& kept_tickets(before, after)
            &&& type_count(after, ticket_type_id) == type_count(before, ticket_type_id)
            &&& standing_count(after, ticket_type_id, Standing::Free, at) + standing_count(
                after,
                ticket_type_id,
                Standing::Held,
                at,
            ) + standing_count(after, ticket_type_id, Standing::Bought, at) + standing_count(
                after,
                ticket_type_id,
                Standing::Used,
                at,
            ) + standing_count(after, ticket_type_id, Standing::Void, at) == type_count(
                before,
                ticket_type_id,
            )
            &&& standing_count(after, ticket_type_id, Standing::Bought, at) == standing_count(
                before,
                ticket_type_id,
                Standing::Bought,
                at,
            )
            &&& standing_count(after, ticket_type_id, Standing::Used, at) == standing_count(
                before,
                ticket_type_id,
                Standing::Used,
                at,
            )
            &&& standing_count(after, ticket_type_id, Standing::Void, at) == standing_count(
                before,
                ticket_type_id,
                Standing::Void,
                at,
            )
            &&& standing_count(after, ticket_type_id, Standing::Held, at) + standing_count(
                after,
                ticket_type_id,
                Standing::Bought,
                at,
            ) <= type_count(before, ticket_type_id)
        }),
{
    let (sa, oa) = spec_lock_version(s, order, now)->Ok_0;
    assert(sa.ticket_instances == s.ticket_instances);
    let (sb, ob) = spec_switch_pricing(sa, oa, current_user_id, box_office_pricing, now)->Ok_0;
    lemma_kept_self(sa.ticket_instances);
    if box_office_pricing != oa.box_office_pricing {
        lemma_clear_lines_tickets(sa, oa, items_of(sa.order_items, oa.id), 0);
    }
    assert(kept_tickets(s.ticket_instances, sb.ticket_instances));
    let wishes = resolve_from(c, items, now, 0, Seq::empty())->Ok_0;
    let start = CartWork { s: sb, wishes, checks: Seq::empty() };
    let lines = items_of(sb.order_items, ob.id);
    lemma_match_lines_tickets(c, start, ob, lines, box_office_pricing, remove_others, now, 0);
    let w = match_lines_from(c, start, ob, lines, box_office_pricing, remove_others, now, 0)->Ok_0;
    lemma_kept_tickets_trans(s.ticket_instances, sb.ticket_instances, w.s.ticket_instances);
    let (sc, oc) = if ob.expires_at is None {
        spec_set_expiry(w.s, ob, Some(current_user_id), None, now)->Ok_0
    } else {
        (w.s, ob)
    };
    lemma_kept_self(w.s.ticket_instances);
    assert(kept_tickets(w.s.ticket_instances, sc.ticket_instances));
    lemma_kept_tickets_trans(s.ticket_instances, w.s.ticket_instances, sc.ticket_instances);
    let mid = CartWork { s: sc, ..w };
    lemma_add_wishes_tickets(c, mid, oc, box_office_pricing, now, 0);
    let w2 = add_wishes_from(c, mid, oc, box_office_pricing, now, 0)->Ok_0;
    lemma_kept_tickets_trans(s.ticket_instances, sc.ticket_instances, w2.s.ticket_instances);
    crate::fee_laws::lemma_update_fees_shape(c, w2.s, oc);
    let sd = spec_update_fees(c, w2.s, oc)->Ok_0;
    assert(sd.ticket_instances == w2.s.ticket_instances);
    let after = spec_update_quantities(
        c,
        s,
        order,
        current_user_id,
        items,
        box_office_pricing,
        remove_others,
        now,
    )->Ok_0.0.ticket_instances;
    assert(after == sd.ticket_instances);
    lemma_kept_tickets_counts(s.ticket_instances, after, ticket_type_id, at);
}

/// A draft cart without lines and without expiry, read at the version that
/// the store holds, at online prices, in a store that has two identifiers
/// left, at a moment from which a quarter of an hour can be counted.
pub open spec fn fresh_cart(s: StoreState, order: Order, now: Timestamp) -> bool {
    &&& order.status == OrderStatus::Draft
    &&& version_current(s, order)
    &&& order.version < i64::MAX
    &&& order.expires_at is None
    &&& s.orders[index_of(s.orders, order.id)->0].expires_at is None
    &&& !order.box_office_pricing
    &&& items_of(s.order_items, order.id).len() == 0
    &&& fits_i64(default_expiry(now))
    &&& s.next_id + 2 <= u128::MAX
}

/// A list of one wish: so many tickets of a type, without a code.
pub open spec fn one_wish(ticket_type_id: Id, quantity: u32) -> Seq<UpdateOrderItem> {
    seq![UpdateOrderItem { ticket_type_id, quantity, redemption_code: None }]
}

/// The store and the order when the first line of a fresh cart is added:
/// the lock was taken and the cart got its expiry.
pub open spec fn before_first_line(
    s: StoreState,
    order: Order,
    current_user_id: Id,
    now: Timestamp,
) -> (StoreState, Order) {
    let (sa, oa) = spec_lock_version(s, order, now)->Ok_0;
    spec_set_expiry(sa, oa, Some(current_user_id), None, now)->Ok_0
}

proof fn lemma_no_lines(items: Seq<OrderItem>, order_id: Id, k: int)
    requires
        0 <= k <= items.len(),
    ensures
        crate::order_items::items_of_upto(items, order_id, k).len() == 0 ==> forall|j: int|
            0 <= j < k ==> (#[trigger] items[j]).order_id != order_id,
        crate::order_items::items_of_upto(items, order_id, k).len() <= k,
    decreases k,
{
    if k > 0 {
        lemma_no_lines(items, order_id, k - 1);
    }
}

proof fn lemma_lines_grow(items: Seq<OrderItem>, order_id: Id, k: int, n: int)
    requires
        0 <= k <= n <= items.len(),
    ensures
        crate::order_items::items_of_upto(items, order_id, k).len()
            <= crate::order_items::items_of_upto(items, order_id, n).len(),
    decreases n - k,
{
    if k < n {
        lemma_lines_grow(items, order_id, k, n - 1);
    }
}

proof fn lemma_quantity_unchanged(
    a: StoreState,
    b: StoreState,
    at: int,
    user_id: Id,
    ticket_type_id: Id,
    hold_id: Option<Id>,
    now: Timestamp,
    k: int,
)
    requires
        a.ticket_instances == b.ticket_instances,
        a.order_items == b.order_items,
        0 <= at < a.orders.len(),
        b.orders == a.orders.update(at, b.orders[at]),
        b.orders[at].id == a.orders[at].id,
        b.orders[at].user_id == a.orders[at].user_id,
        b.orders[at].on_behalf_of_user_id == a.orders[at].on_behalf_of_user_id,
        0 <= k <= a.ticket_instances.len(),
    ensures
        quantity_before(b, user_id, ticket_type_id, hold_id, now, k) == quantity_before(
            a,
            user_id,
            ticket_type_id,
            hold_id,
            now,
            k,
        ),
    decreases k,
{
    if k > 0 {
        lemma_quantity_unchanged(a, b, at, user_id, ticket_type_id, hold_id, now, k - 1);
        let t = a.ticket_instances[k - 1];
        if t.order_item_id is Some && index_of(a.order_items, t.order_item_id->0) is Some {
            let item = a.order_items[index_of(a.order_items, t.order_item_id->0)->0];
            lemma_index_after_update(a.orders, at, b.orders[at], item.order_id, 0);
            lemma_index_of(a.orders, item.order_id);
        }
    }
}

/// The first wish of a fresh cart reaches the ledger with the store as it
/// was: the lock is taken, the cart gets its expiry, and neither changes a
/// line, a ticket, or what any user holds.
pub proof fn lemma_first_wish_reaches_ledger(
    c: CatalogState,
    s: StoreState,
    order: Order,
    current_user_id: Id,
    ticket_type_id: Id,
    quantity: u32,
    remove_others: bool,
    now: Timestamp,
)
    requires
        fresh_cart(s, order, now),
        quantity > 0,
    ensures
        ({
            let (sc, oc) = before_first_line(s, order, current_user_id, now);
            let wish = MatchData {
                open: true,
                ticket_type_id,
                quantity,
                redemption: Redemption::Nothing,
            };
            &&& sc.ticket_instances == s.ticket_instances
            &&& sc.order_items == s.order_items
            &&& sc.next_id == s.next_id + 1
            &&& oc.id == order.id
            &&& oc.user_id == order.user_id
            &&& oc.expires_at == Some(default_expiry(now) as i64)
            &&& index_of(sc.orders, order.id) == index_of(s.orders, order.id)
            &&& sc.orders.len() == s.orders.len()
            &&& sc.orders[index_of(s.orders, order.id)->0].user_id == s.orders[index_of(
                s.orders,
                order.id,
            )->0].user_id
            &&& sc.orders[index_of(s.orders, order.id)->0].on_behalf_of_user_id
                == s.orders[index_of(s.orders, order.id)->0].on_behalf_of_user_id
            &&& forall|user_id: Id, hold_id: Option<Id>|
                #![trigger spec_quantity_for_user(sc, user_id, ticket_type_id, hold_id, now)]
                spec_quantity_for_user(sc, user_id, ticket_type_id, hold_id, now)
                    == spec_quantity_for_user(s, user_id, ticket_type_id, hold_id, now)
            &&& spec_update_quantities(
                c,
                s,
                order,
                current_user_id,
                one_wish(ticket_type_id, quantity),
                false,
                remove_others,
                now,
            ) == match spec_add_line(c, sc, oc, wish, false, now) {
                Err(e) => Err::<(StoreState, Order), DatabaseError>(e),
                Ok((s1, check)) => spec_after_lines(
                    c,
                    Ok(CartWork { s: s1, wishes: seq![wish], checks: seq![check] }),
                    oc,
                    current_user_id,
                    now,
                ),
            }
        }),
{
    let at = index_of(s.orders, order.id)->0;
    lemma_index_of(s.orders, order.id);
    let (sa, oa) = spec_lock_version(s, order, now)->Ok_0;
    let locked = Order { version: (order.version + 1) as i64, updated_at: now, ..s.orders[at] };
    assert(sa.orders == s.orders.update(at, locked));
    lemma_index_after_update(s.orders, at, locked, order.id, 0);
    assert(version_current(sa, oa));
    lemma_no_lines(s.order_items, order.id, s.order_items.len() as int);
    let new_expiry = default_expiry(now) as i64;
    let extended = extend_reservations(sa.ticket_instances, sa.order_items, order.id, new_expiry);
    assert(extended =~= s.ticket_instances) by {
        assert forall|i: int| 0 <= i < s.ticket_instances.len() implies !ticket_of_order(
            s.order_items,
            #[trigger] s.ticket_instances[i],
            order.id,
        ) by {
            let t = s.ticket_instances[i];
            if t.order_item_id is Some {
                lemma_index_of(s.order_items, t.order_item_id->0);
            }
        }
    }
    assert(spec_set_expiry(sa, oa, Some(current_user_id), None, now) is Ok);
    let (sc, oc) = before_first_line(s, order, current_user_id, now);
    let dated = Order { expires_at: Some(new_expiry), updated_at: now, ..sa.orders[at] };
    assert(sc.orders == sa.orders.update(at, dated));
    lemma_index_after_update(sa.orders, at, dated, order.id, 0);
    assert(sc.orders =~= s.orders.update(at, dated));
    assert forall|user_id: Id, hold_id: Option<Id>|
        #![trigger spec_quantity_for_user(sc, user_id, ticket_type_id, hold_id, now)]
        spec_quantity_for_user(sc, user_id, ticket_type_id, hold_id, now)
            == spec_quantity_for_user(s, user_id, ticket_type_id, hold_id, now) by {
        lemma_quantity_unchanged(
            s,
            sc,
            at,
            user_id,
            ticket_type_id,
            hold_id,
            now,
            s.ticket_instances.len() as int,
        );
    }
    // the wish is resolved to itself, and no line of the cart stands against it
    let wish = MatchData { open: true, ticket_type_id, quantity, redemption: Redemption::Nothing };
    let asked = one_wish(ticket_type_id, quantity);
    assert(resolve_from(c, asked, now, 1, seq![wish]) == Ok::<Seq<MatchData>, DatabaseError>(
        seq![wish],
    ));
    assert(Seq::<MatchData>::empty().push(wish) =~= seq![wish]);
    assert(resolve_from(c, asked, now, 0, Seq::empty()) == Ok::<Seq<MatchData>, DatabaseError>(
        seq![wish],
    ));
    let start = CartWork { s: sa, wishes: seq![wish], checks: Seq::empty() };
    assert(items_of(sa.order_items, oa.id).len() == 0);
    assert(match_lines_from(
        c,
        start,
        oa,
        items_of(sa.order_items, oa.id),
        false,
        remove_others,
        now,
        0,
    ) == Ok::<CartWork, DatabaseError>(start));
    let mid = CartWork { s: sc, wishes: seq![wish], checks: Seq::empty() };
    match spec_add_line(c, sc, oc, wish, false, now) {
        Err(e) => {
            assert(add_wishes_from(c, mid, oc, false, now, 0) == Err::<CartWork, DatabaseError>(e));
        },
        Ok((s1, check)) => {
            let done = CartWork { s: s1, wishes: seq![wish], checks: Seq::empty().push(check) };
            assert(add_wishes_from(c, done, oc, false, now, 1) == Ok::<CartWork, DatabaseError>(
                done,
            ));
            assert(add_wishes_from(c, mid, oc, false, now, 0) == Ok::<CartWork, DatabaseError>(
                done,
            ));
            assert(Seq::<LimitCheck>::empty().push(check) =~= seq![check]);
        },
    }
}

/// No oversell, for a cart. The first wish of a fresh cart is refused, out
/// of stock, where it asks for more tickets of the type than are free, and
/// only a wish that the ledger can serve gets further.
pub proof fn lemma_first_wish_out_of_stock(
    c: CatalogState,
    s: StoreState,
    order: Order,
    current_user_id: Id,
    ticket_type_id: Id,
    quantity: u32,
    remove_others: bool,
    now: Timestamp,
)
    requires
        fresh_cart(s, order, now),
        quantity > 0,
        spec_offer(c, ticket_type_id, false, now) is Ok,
        available_count(s.ticket_instances, ticket_type_id, None, now) < quantity,
    ensures
        spec_update_quantities(
            c,
            s,
            order,
            current_user_id,
            one_wish(ticket_type_id, quantity),
            false,
            remove_others,
            now,
        ) == Err::<(StoreState, Order), DatabaseError>(
            DatabaseError::OutOfStock { ticket_type_id, hold_id: None, requested: quantity },
        ),
{
    lemma_first_wish_reaches_ledger(
        c,
        s,
        order,
        current_user_id,
        ticket_type_id,
        quantity,
        remove_others,
        now,
    );
}

/// Every line and every ticket names an identifier below the one that the
/// next new row gets.
pub open spec fn identifiers_used_below_next(s: StoreState) -> bool {
    &&& forall|i: int| 0 <= i < s.order_items.len() ==> (#[trigger] s.order_items[i]).id < s.next_id
    &&& forall|i: int|
        0 <= i < s.ticket_instances.len() && (#[trigger] s.ticket_instances[i]).order_item_id
            is Some ==> s.ticket_instances[i].order_item_id->0 < s.next_id
}

/// Per-person limit, for a cart. A user who holds `E` tickets of a type
/// whose limit per person is `L`, and whose fresh cart asks for `Q` more
/// with `E + Q` above `L`, is refused with the error for the limit, which
/// names the ticket type, the limit and the `E + Q` that were asked for,
/// though the tickets are in stock. The update leaves nothing behind.
pub proof fn lemma_first_wish_over_limit(
    c: CatalogState,
    s: StoreState,
    order: Order,
    current_user_id: Id,
    ticket_type_id: Id,
    quantity: u32,
    remove_others: bool,
    now: Timestamp,
)
    requires
        fresh_cart(s, order, now),
        identifiers_used_below_next(s),
        order_of_user(s.orders[index_of(s.orders, order.id)->0], order.user_id),
        quantity > 0,
        spec_offer(c, ticket_type_id, false, now) is Ok,
        available_count(s.ticket_instances, ticket_type_id, None, now) >= quantity,
        spec_offer(c, ticket_type_id, false, now)->Ok_0.1.limit_per_person > 0,
        spec_quantity_for_user(s, order.user_id, ticket_type_id, None, now) + quantity > spec_offer(
            c,
            ticket_type_id,
            false,
            now,
        )->Ok_0.1.limit_per_person,
    ensures
        spec_update_quantities(
            c,
            s,
            order,
            current_user_id,
            one_wish(ticket_type_id, quantity),
            false,
            remove_others,
            now,
        ) == Err::<(StoreState, Order), DatabaseError>(
            DatabaseError::LimitPerPersonExceeded {
                ticket_type_id,
                hold_id: None,
                limit_per_person: spec_offer(c, ticket_type_id, false, now)->Ok_0.1.limit_per_person,
                attempted_quantity: (spec_quantity_for_user(
                    s,
                    order.user_id,
                    ticket_type_id,
                    None,
                    now,
                ) + quantity) as u64,
            },
        ),
{
    lemma_first_wish_reaches_ledger(
        c,
        s,
        order,
        current_user_id,
        ticket_type_id,
        quantity,
        remove_others,
        now,
    );
    let (sc, oc) = before_first_line(s, order, current_user_id, now);
    let wish = MatchData { open: true, ticket_type_id, quantity, redemption: Redemption::Nothing };
    lemma_index_of(c.ticket_types, ticket_type_id);
    assert(spec_add_line(c, sc, oc, wish, false, now) is Ok);
    let (s1, check) = spec_add_line(c, sc, oc, wish, false, now)->Ok_0;
    assert(next_id_unused(sc));
    lemma_add_line_counts(c, sc, oc, wish, false, now, order.user_id);
    assert(spec_quantity_for_user(sc, order.user_id, ticket_type_id, None, now)
        == spec_quantity_for_user(s, order.user_id, ticket_type_id, None, now));
    assert(over_limit(s1, oc.user_id, check, now));
    assert(limits_from(s1, oc.user_id, seq![check], now, 0) is Err);
}

/// No oversell, for a cart that succeeds. The first wish of a fresh cart
/// that is granted asked for no more tickets of the type than were free,
/// and takes exactly as many out of the pool. So however many carts ask in
/// turn, those that are granted never get more together than were free.
pub proof fn lemma_first_wish_takes(
    c: CatalogState,
    s: StoreState,
    order: Order,
    current_user_id: Id,
    ticket_type_id: Id,
    quantity: u32,
    remove_others: bool,
    now: Timestamp,
)
    requires
        fresh_cart(s, order, now),
        quantity > 0,
        spec_update_quantities(
            c,
            s,
            order,
            current_user_id,
            one_wish(ticket_type_id, quantity),
            false,
            remove_others,
            now,
        ) is Ok,
    ensures
        quantity <= available_count(s.ticket_instances, ticket_type_id, None, now),
        available_count(
            spec_update_quantities(
                c,
                s,
                order,
                current_user_id,
                one_wish(ticket_type_id, quantity),
                false,
                remove_others,
                now,
            )->Ok_0.0.ticket_instances,
            ticket_type_id,
            None,
            now,
        ) == available_count(s.ticket_instances, ticket_type_id, None, now) - quantity,
{
    lemma_first_wish_reaches_ledger(
        c,
        s,
        order,
        current_user_id,
        ticket_type_id,
        quantity,
        remove_others,
        now,
    );
    let (sc, oc) = before_first_line(s, order, current_user_id, now);
    let wish = MatchData { open: true, ticket_type_id, quantity, redemption: Redemption::Nothing };
    let (s1, check) = spec_add_line(c, sc, oc, wish, false, now)->Ok_0;
    lemma_reserve_takes(
        s.ticket_instances,
        sc.next_id,
        oc.expires_at,
        ticket_type_id,
        None,
        quantity as nat,
        now,
        s.ticket_instances.len() as int,
    );
    crate::fee_laws::lemma_update_fees_shape(c, s1, oc);
}

} // verus!
