//! The cart: how a list of wishes becomes ticket lines and reservations.
//!
//! An update of the quantities takes the lock once and then runs in this
//! order. A change between box office and online prices clears the cart. Each ticket line of the cart is
//! held against the wishes: the first open wish for its ticket type, hold and
//! code sets its quantity, and a line that no wish names goes where the
//! caller asks for that. A cart without expiry gets one. Each wish that no
//! line took becomes a new line. Then the limits per person are checked and
//! fees and discounts are recomputed. A cart left without lines loses its
//! expiry, and the cart must hold tickets of one event only. Where any step
//! fails, nothing changes.

use vstd::prelude::*;
use crate::errors::DatabaseError;
use crate::display::invalid_lines;
use crate::fees::spec_update_fees;
use crate::inventory::{held_count, linked_count, spec_release_tickets, spec_reserve_tickets};
use crate::model::{Order, OrderItem, TicketInstance, UpdateOrderItem};
use crate::order_items::{items_of, spec_insert_item, spec_update_item, without_item};
use crate::orders::{
    spec_lock_version, spec_remove_expiry, spec_set_expiry, spec_update_box_office_pricing, Outcome,
};
use crate::pricing::{spec_current_ticket_pricing, spec_unit_price};
use crate::redemption::{resolve, spec_resolve, Redemption};
use crate::model::{TicketPricing, TicketType};
use crate::store::{find_index, index_of, take_id, Catalog, CatalogState, Store, StoreState};
use crate::types::{Id, OrderItemTypes, OrderStatus, Tables, TicketInstanceStatus, Timestamp};

verus! {

/// One wish after its redemption code was resolved.
#[derive(Clone, Copy, PartialEq, Eq, Debug, Structural)]
pub struct MatchData {
    /// Whether no line of the cart has taken the wish yet.
    pub open: bool,
    pub ticket_type_id: Id,
    pub quantity: u32,
    pub redemption: Redemption,
}

/// A limit per person that the update must respect.
#[derive(Clone, Copy, PartialEq, Eq, Debug, Structural)]
pub struct LimitCheck {
    pub ticket_type_id: Id,
    pub hold_id: Option<Id>,
    pub limit_per_person: i64,
}

/// What an update has reached so far.
pub struct CartWork {
    pub s: StoreState,
    pub wishes: Seq<MatchData>,
    pub checks: Seq<LimitCheck>,
}

/// Deleting an item with its children, which only a draft order allows.
pub open spec fn spec_destroy_item(s: StoreState, order: Order, item_id: Id) -> Result<
    StoreState,
    DatabaseError,
> {
    if order.status != OrderStatus::Draft {
        Err(DatabaseError::DeleteFromNonDraftOrder)
    } else {
        Ok(StoreState { order_items: without_item(s.order_items, item_id), ..s })
    }
}

/// Giving back `quantity` instances of a line, then deleting the line.
pub open spec fn spec_remove_line(s: StoreState, order: Order, line: OrderItem, quantity: int) -> Result<
    StoreState,
    DatabaseError,
> {
    if !(0 <= quantity <= u32::MAX) {
        Err(DatabaseError::ArithmeticOverflow)
    } else {
        match spec_release_tickets(s.ticket_instances, line.id, quantity as u32) {
            Err(e) => Err(e),
            Ok(ts) => spec_destroy_item(StoreState { ticket_instances: ts, ..s }, order, line.id),
        }
    }
}

/// Clearing one line of the cart: the line goes with its children, and a
/// ticket line first gives back every instance that belongs to it.
pub open spec fn spec_clear_line(s: StoreState, order: Order, line: OrderItem) -> Result<
    StoreState,
    DatabaseError,
> {
    if line.item_type != OrderItemTypes::Tickets {
        spec_destroy_item(s, order, line.id)
    } else {
        spec_remove_line(s, order, line, linked_count(s.ticket_instances, line.id) as int)
    }
}

/// Clearing the lines from the `k`th on.
pub open spec fn clear_lines_from(s: StoreState, order: Order, lines: Seq<OrderItem>, k: int) -> Result<
    StoreState,
    DatabaseError,
>
    decreases lines.len() - k,
{
    if k < 0 || k >= lines.len() {
        Ok(s)
    } else {
        match spec_clear_line(s, order, lines[k]) {
            Err(e) => Err(e),
            Ok(s1) => clear_lines_from(s1, order, lines, k + 1),
        }
    }
}

/// The outcome for `order` of a step that changed the store alone.
pub open spec fn with_order(r: Result<StoreState, DatabaseError>, order: Order) -> Outcome {
    match r {
        Err(e) => Err(e),
        Ok(s) => Ok((s, order)),
    }
}

/// Clearing the cart: the lock, then every line.
pub open spec fn spec_clear_cart(s: StoreState, order: Order, now: Timestamp) -> Outcome {
    match spec_lock_version(s, order, now) {
        Err(e) => Err(e),
        Ok((s1, o1)) => with_order(
            clear_lines_from(s1, o1, items_of(s1.order_items, o1.id), 0),
            o1,
        ),
    }
}

/// The lines from the `k`th on removed from the cart: each gives back the
/// instances that it holds, and goes with its children.
pub open spec fn drop_lines_from(s: StoreState, order: Order, lines: Seq<OrderItem>, k: int) -> Result<
    StoreState,
    DatabaseError,
>
    decreases lines.len() - k,
{
    if k < 0 || k >= lines.len() {
        Ok(s)
    } else {
        match spec_remove_line(
            s,
            order,
            lines[k],
            held_count(s.ticket_instances, lines[k].id) as int,
        ) {
            Err(e) => Err(e),
            Ok(s1) => drop_lines_from(s1, order, lines, k + 1),
        }
    }
}

/// Clearing the lines of a draft cart that cannot be bought as they stand
/// at `now`: the lock, then each such line gives back what it holds and
/// goes.
pub open spec fn spec_clear_invalid_items(
    c: CatalogState,
    s: StoreState,
    order: Order,
    now: Timestamp,
) -> Outcome {
    if order.status != OrderStatus::Draft {
        Err(DatabaseError::OrderNotDraft)
    } else {
        match spec_lock_version(s, order, now) {
            Err(e) => Err(e),
            Ok((s1, o1)) => with_order(
                drop_lines_from(s1, o1, invalid_lines(c, s1, o1.id, now), 0),
                o1,
            ),
        }
    }
}

/// The wishes from the `k`th on, resolved and added to `done`.
pub open spec fn resolve_from(
    c: CatalogState,
    items: Seq<UpdateOrderItem>,
    now: Timestamp,
    k: int,
    done: Seq<MatchData>,
) -> Result<Seq<MatchData>, DatabaseError>
    decreases items.len() - k,
{
    if k < 0 || k >= items.len() {
        Ok(done)
    } else {
        match spec_resolve(c, items[k].redemption_code, now) {
            Err(e) => Err(e),
            Ok(redemption) => resolve_from(
                c,
                items,
                now,
                k + 1,
                done.push(
                    MatchData {
                        open: true,
                        ticket_type_id: items[k].ticket_type_id,
                        quantity: items[k].quantity,
                        redemption,
                    },
                ),
            ),
        }
    }
}

/// Whether the wish is open and names the ticket type, hold and code of the line.
pub open spec fn wish_matches(wish: MatchData, line: OrderItem) -> bool {
    &&& wish.open
    &&& line.ticket_type_id == Some(wish.ticket_type_id)
    &&& wish.redemption.hold_id() == line.hold_id
    &&& wish.redemption.code_id() == line.code_id
}

/// The index of the first wish at or after `from` that matches the line.
pub open spec fn matching_wish_from(wishes: Seq<MatchData>, line: OrderItem, from: int) -> Option<int>
    decreases wishes.len() - from,
{
    if from < 0 || from >= wishes.len() {
        None
    } else if wish_matches(wishes[from], line) {
        Some(from)
    } else {
        matching_wish_from(wishes, line, from + 1)
    }
}

/// The limit per person for a ticket type under a redemption: that of the
/// hold where there is one, else that of the ticket type.
pub open spec fn spec_limit(ticket_type: TicketType, redemption: Redemption) -> i64 {
    match redemption.limit_per_person() {
        Some(limit) => limit,
        None => ticket_type.limit_per_person,
    }
}

/// The current pricing and the ticket type of a wish.
pub open spec fn spec_offer(
    c: CatalogState,
    ticket_type_id: Id,
    box_office_pricing: bool,
    now: Timestamp,
) -> Result<(TicketPricing, TicketType), DatabaseError> {
    match spec_current_ticket_pricing(c.ticket_pricing, ticket_type_id, box_office_pricing, now) {
        Err(e) => Err(e),
        Ok(pricing) => match index_of(c.ticket_types, ticket_type_id) {
            None => Err(DatabaseError::NotFound { table: Tables::TicketTypes, id: ticket_type_id }),
            Some(i) => Ok((pricing, c.ticket_types[i])),
        },
    }
}

/// A new ticket line for a wish, at the current price, with its reservation;
/// and the limit to check for it.
pub open spec fn spec_add_line(
    c: CatalogState,
    s: StoreState,
    order: Order,
    wish: MatchData,
    box_office_pricing: bool,
    now: Timestamp,
) -> Result<(StoreState, LimitCheck), DatabaseError> {
    match spec_offer(c, wish.ticket_type_id, box_office_pricing, now) {
        Err(e) => Err(e),
        Ok((pricing, ticket_type)) => match spec_unit_price(pricing.price_in_cents, wish.redemption) {
            Err(e) => Err(e),
            Ok(price) => match take_id(s) {
                None => Err(DatabaseError::IdentifiersExhausted),
                Some((s1, id)) => {
                    let item = OrderItem {
                        id,
                        order_id: order.id,
                        item_type: OrderItemTypes::Tickets,
                        ticket_type_id: Some(ticket_type.id),
                        event_id: Some(ticket_type.event_id),
                        quantity: wish.quantity as i64,
                        unit_price_in_cents: price,
                        ticket_pricing_id: Some(pricing.id),
                        fee_schedule_range_id: None,
                        parent_id: None,
                        hold_id: wish.redemption.hold_id(),
                        code_id: wish.redemption.code_id(),
                        company_fee_in_cents: 0,
                        client_fee_in_cents: 0,
                        refunded_quantity: 0,
                    };
                    match spec_insert_item(s1.order_items, item) {
                        Err(e) => Err(e),
                        Ok(items) => match spec_reserve_tickets(
                            s1.ticket_instances,
                            id,
                            order.expires_at,
                            wish.ticket_type_id,
                            wish.redemption.hold_id(),
                            wish.quantity,
                            now,
                        ) {
                            Err(e) => Err(e),
                            Ok(ts) => Ok(
                                (
                                    StoreState { order_items: items, ticket_instances: ts, ..s1 },
                                    LimitCheck {
                                        ticket_type_id: ticket_type.id,
                                        hold_id: wish.redemption.hold_id(),
                                        limit_per_person: spec_limit(ticket_type, wish.redemption),
                                    },
                                ),
                            ),
                        },
                    }
                },
            },
        },
    }
}

/// A line whose wish asks for less: the difference goes back to the pool,
/// and a line left with nothing is deleted.
pub open spec fn spec_shrink_line(s: StoreState, order: Order, line: OrderItem, quantity: u32) -> Result<
    StoreState,
    DatabaseError,
> {
    if line.quantity - quantity > u32::MAX {
        Err(DatabaseError::ArithmeticOverflow)
    } else {
        match spec_release_tickets(
            s.ticket_instances,
            line.id,
            (line.quantity - quantity) as u32,
        ) {
            Err(e) => Err(e),
            Ok(ts) => match spec_update_item(
                s.order_items,
                OrderItem { quantity: quantity as i64, ..line },
            ) {
                Err(e) => Err(e),
                Ok(items) => {
                    let s1 = StoreState { ticket_instances: ts, order_items: items, ..s };
                    if quantity == 0 {
                        spec_destroy_item(s1, order, line.id)
                    } else {
                        Ok(s1)
                    }
                },
            },
        }
    }
}

/// A line whose wish asks for more. At an unchanged price the difference is
/// reserved for the line. Where the price has changed since the line was
/// added, the line is replaced: it gives back what it holds and goes, and a
/// new line at the current price reserves the whole quantity.
pub open spec fn spec_grow_line(
    c: CatalogState,
    s: StoreState,
    order: Order,
    line: OrderItem,
    wish: MatchData,
    box_office_pricing: bool,
    now: Timestamp,
) -> Result<(StoreState, LimitCheck), DatabaseError> {
    match spec_offer(c, wish.ticket_type_id, box_office_pricing, now) {
        Err(e) => Err(e),
        Ok((pricing, ticket_type)) => {
            if line.ticket_pricing_id != Some(pricing.id) {
                match spec_remove_line(s, order, line, line.quantity as int) {
                    Err(e) => Err(e),
                    Ok(s1) => spec_add_line(c, s1, order, wish, box_office_pricing, now),
                }
            } else if wish.quantity - line.quantity > u32::MAX {
                Err(DatabaseError::ArithmeticOverflow)
            } else {
                match spec_reserve_tickets(
                    s.ticket_instances,
                    line.id,
                    order.expires_at,
                    wish.ticket_type_id,
                    wish.redemption.hold_id(),
                    (wish.quantity - line.quantity) as u32,
                    now,
                ) {
                    Err(e) => Err(e),
                    Ok(ts) => match spec_update_item(
                        s.order_items,
                        OrderItem { quantity: wish.quantity as i64, ..line },
                    ) {
                        Err(e) => Err(e),
                        Ok(items) => Ok(
                            (
                                StoreState { ticket_instances: ts, order_items: items, ..s },
                                LimitCheck {
                                    ticket_type_id: ticket_type.id,
                                    hold_id: wish.redemption.hold_id(),
                                    limit_per_person: spec_limit(ticket_type, wish.redemption),
                                },
                            ),
                        ),
                    },
                }
            }
        },
    }
}

/// One line of the cart held against the wishes.
pub open spec fn spec_match_line(
    c: CatalogState,
    w: CartWork,
    order: Order,
    line: OrderItem,
    box_office_pricing: bool,
    remove_others: bool,
    now: Timestamp,
) -> Result<CartWork, DatabaseError> {
    if line.item_type != OrderItemTypes::Tickets {
        Ok(w)
    } else {
        match matching_wish_from(w.wishes, line, 0) {
            Some(j) => {
                let wish = w.wishes[j];
                let wishes = w.wishes.update(j, MatchData { open: false, ..wish });
                if line.quantity > wish.quantity {
                    match spec_shrink_line(w.s, order, line, wish.quantity) {
                        Err(e) => Err(e),
                        Ok(s1) => Ok(CartWork { s: s1, wishes, checks: w.checks }),
                    }
                } else if line.quantity < wish.quantity {
                    match spec_grow_line(c, w.s, order, line, wish, box_office_pricing, now) {
                        Err(e) => Err(e),
                        Ok((s1, check)) => Ok(
                            CartWork { s: s1, wishes, checks: w.checks.push(check) },
                        ),
                    }
                } else {
                    Ok(CartWork { s: w.s, wishes, checks: w.checks })
                }
            },
            None => {
                if remove_others {
                    match spec_remove_line(w.s, order, line, line.quantity as int) {
                        Err(e) => Err(e),
                        Ok(s1) => Ok(CartWork { s: s1, ..w }),
                    }
                } else {
                    Ok(w)
                }
            },
        }
    }
}

/// The lines from the `k`th on held against the wishes.
pub open spec fn match_lines_from(
    c: CatalogState,
    w: CartWork,
    order: Order,
    lines: Seq<OrderItem>,
    box_office_pricing: bool,
    remove_others: bool,
    now: Timestamp,
    k: int,
) -> Result<CartWork, DatabaseError>
    decreases lines.len() - k,
{
    if k < 0 || k >= lines.len() {
        Ok(w)
    } else {
        match spec_match_line(c, w, order, lines[k], box_office_pricing, remove_others, now) {
            Err(e) => Err(e),
            Ok(w1) => match_lines_from(
                c,
                w1,
                order,
                lines,
                box_office_pricing,
                remove_others,
                now,
                k + 1,
            ),
        }
    }
}

/// The wishes from the `k`th on that are still open and ask for something,
/// each made a new line.
pub open spec fn add_wishes_from(
    c: CatalogState,
    w: CartWork,
    order: Order,
    box_office_pricing: bool,
    now: Timestamp,
    k: int,
) -> Result<CartWork, DatabaseError>
    decreases w.wishes.len() - k,
{
    if k < 0 || k >= w.wishes.len() {
        Ok(w)
    } else if w.wishes[k].quantity == 0 || !w.wishes[k].open {
        add_wishes_from(c, w, order, box_office_pricing, now, k + 1)
    } else {
        match spec_add_line(c, w.s, order, w.wishes[k], box_office_pricing, now) {
            Err(e) => Err(e),
            Ok((s1, check)) => add_wishes_from(
                c,
                CartWork { s: s1, wishes: w.wishes, checks: w.checks.push(check) },
                order,
                box_office_pricing,
                now,
                k + 1,
            ),
        }
    }
}

/// Whether the order is one of `user_id`: placed by the user for nobody
/// else, or placed for the user.
pub open spec fn order_of_user(order: Order, user_id: Id) -> bool {
    (order.user_id == user_id && order.on_behalf_of_user_id is None) || order.on_behalf_of_user_id
        == Some(user_id)
}

/// Whether the instance counts against the limit of `user_id` for the ticket
/// type under the hold: it is bought, or held until after `now`, by a line
/// for that ticket type and hold of an order of the user.
pub open spec fn counts_for_user(
    s: StoreState,
    t: TicketInstance,
    user_id: Id,
    ticket_type_id: Id,
    hold_id: Option<Id>,
    now: Timestamp,
) -> bool {
    &&& t.status == TicketInstanceStatus::Purchased || (t.status == TicketInstanceStatus::Reserved
        && t.reserved_until is Some && t.reserved_until->0 > now)
    &&& t.order_item_id is Some
    &&& index_of(s.order_items, t.order_item_id->0) is Some
    &&& {
        let item = s.order_items[index_of(s.order_items, t.order_item_id->0)->0];
        &&& item.ticket_type_id == Some(ticket_type_id)
        &&& item.hold_id == hold_id
        &&& index_of(s.orders, item.order_id) is Some
        &&& order_of_user(s.orders[index_of(s.orders, item.order_id)->0], user_id)
    }
}

/// How many of the first `k` instances count against the limit.
pub open spec fn quantity_before(
    s: StoreState,
    user_id: Id,
    ticket_type_id: Id,
    hold_id: Option<Id>,
    now: Timestamp,
    k: int,
) -> nat
    decreases k,
{
    if k <= 0 {
        0
    } else {
        quantity_before(s, user_id, ticket_type_id, hold_id, now, k - 1) + if counts_for_user(
            s,
            s.ticket_instances[k - 1],
            user_id,
            ticket_type_id,
            hold_id,
            now,
        ) {
            1nat
        } else {
            0nat
        }
    }
}

/// How many instances of the ticket type under the hold the user has bought
/// or holds at `now`, over all orders.
pub open spec fn spec_quantity_for_user(
    s: StoreState,
    user_id: Id,
    ticket_type_id: Id,
    hold_id: Option<Id>,
    now: Timestamp,
) -> nat {
    quantity_before(s, user_id, ticket_type_id, hold_id, now, s.ticket_instances.len() as int)
}

/// Whether the user is over the limit of the check.
pub open spec fn over_limit(s: StoreState, user_id: Id, check: LimitCheck, now: Timestamp) -> bool {
    check.limit_per_person > 0 && spec_quantity_for_user(
        s,
        user_id,
        check.ticket_type_id,
        check.hold_id,
        now,
    ) > check.limit_per_person
}

/// The first limit from the `k`th check on that the user is over, as the
/// error that names it.
pub open spec fn limits_from(
    s: StoreState,
    user_id: Id,
    checks: Seq<LimitCheck>,
    now: Timestamp,
    k: int,
) -> Result<(), DatabaseError>
    decreases checks.len() - k,
{
    if k < 0 || k >= checks.len() {
        Ok(())
    } else if over_limit(s, user_id, checks[k], now) {
        Err(
            DatabaseError::LimitPerPersonExceeded {
                ticket_type_id: checks[k].ticket_type_id,
                hold_id: checks[k].hold_id,
                limit_per_person: checks[k].limit_per_person,
                attempted_quantity: spec_quantity_for_user(
                    s,
                    user_id,
                    checks[k].ticket_type_id,
                    checks[k].hold_id,
                    now,
                ) as u64,
            },
        )
    } else {
        limits_from(s, user_id, checks, now, k + 1)
    }
}

/// Whether every line of the order that belongs to an event belongs to the
/// same one.
pub open spec fn single_event(items: Seq<OrderItem>, order_id: Id) -> bool {
    forall|i: int, j: int|
        0 <= i < items.len() && 0 <= j < items.len() && (#[trigger] items[i]).order_id == order_id
            && (#[trigger] items[j]).order_id == order_id && items[i].event_id is Some
            && items[j].event_id is Some ==> items[i].event_id == items[j].event_id
}

/// The check of the order as a whole.
pub open spec fn spec_validate_record(s: StoreState, order: Order) -> Result<(), DatabaseError> {
    if single_event(s.order_items, order.id) {
        Ok(())
    } else {
        Err(DatabaseError::CartEventLimitReached { order_id: order.id })
    }
}

/// The first step, under the lock that the update holds: where the prices
/// change between box office and online, every line of the cart is cleared
/// and the order gets the new pricing mode. The version stays as it is.
pub open spec fn spec_switch_pricing(
    s: StoreState,
    order: Order,
    current_user_id: Id,
    box_office_pricing: bool,
    now: Timestamp,
) -> Outcome {
    if box_office_pricing != order.box_office_pricing {
        match clear_lines_from(s, order, items_of(s.order_items, order.id), 0) {
            Err(e) => Err(e),
            Ok(s1) => spec_update_box_office_pricing(
                s1,
                order,
                box_office_pricing,
                current_user_id,
                now,
            ),
        }
    } else {
        Ok((s, order))
    }
}

/// The steps after the new lines were added: the limits per person, the
/// fees, the expiry of a cart left without lines, and the check of the
/// order.
pub open spec fn spec_after_lines(
    c: CatalogState,
    r: Result<CartWork, DatabaseError>,
    order: Order,
    current_user_id: Id,
    now: Timestamp,
) -> Outcome {
    match r {
        Err(e) => Err(e),
        Ok(w) => match limits_from(w.s, order.user_id, w.checks, now, 0) {
            Err(e) => Err(e),
            Ok(()) => match spec_update_fees(c, w.s, order) {
                Err(e) => Err(e),
                Ok(s1) => match (if items_of(s1.order_items, order.id).len() == 0 {
                    spec_remove_expiry(s1, order, current_user_id, now)
                } else {
                    Ok((s1, order))
                }) {
                    Err(e) => Err(e),
                    Ok((s2, o2)) => match spec_validate_record(s2, o2) {
                        Err(e) => Err(e),
                        Ok(()) => Ok((s2, o2)),
                    },
                },
            },
        },
    }
}

/// The steps after the wishes were held against the lines: a cart without
/// expiry gets one, the open wishes become new lines, and the rest follows.
pub open spec fn spec_finish_update(
    c: CatalogState,
    w: CartWork,
    order: Order,
    current_user_id: Id,
    box_office_pricing: bool,
    now: Timestamp,
) -> Outcome {
    match (if order.expires_at is None {
        spec_set_expiry(w.s, order, Some(current_user_id), None, now)
    } else {
        Ok((w.s, order))
    }) {
        Err(e) => Err(e),
        Ok((s1, o1)) => spec_after_lines(
            c,
            add_wishes_from(c, CartWork { s: s1, ..w }, o1, box_office_pricing, now, 0),
            o1,
            current_user_id,
            now,
        ),
    }
}

/// The steps after the lines were held against the wishes.
pub open spec fn spec_after_match(
    c: CatalogState,
    r: Result<CartWork, DatabaseError>,
    order: Order,
    current_user_id: Id,
    box_office_pricing: bool,
    now: Timestamp,
) -> Outcome {
    match r {
        Err(e) => Err(e),
        Ok(w) => spec_finish_update(c, w, order, current_user_id, box_office_pricing, now),
    }
}

/// The update of the quantities of a draft cart.
pub open spec fn spec_update_quantities(
    c: CatalogState,
    s: StoreState,
    order: Order,
    current_user_id: Id,
    items: Seq<UpdateOrderItem>,
    box_office_pricing: bool,
    remove_others: bool,
    now: Timestamp,
) -> Outcome {
    if order.status != OrderStatus::Draft {
        Err(DatabaseError::OrderNotDraft)
    } else {
        match spec_lock_version(s, order, now) {
            Err(e) => Err(e),
            Ok((s1, o1)) => match spec_switch_pricing(
                s1,
                o1,
                current_user_id,
                box_office_pricing,
                now,
            ) {
                Err(e) => Err(e),
                Ok((s2, o2)) => match resolve_from(c, items, now, 0, Seq::empty()) {
                    Err(e) => Err(e),
                    Ok(wishes) => spec_after_match(
                        c,
                        match_lines_from(
                            c,
                            CartWork { s: s2, wishes, checks: Seq::empty() },
                            o2,
                            items_of(s2.order_items, o2.id),
                            box_office_pricing,
                            remove_others,
                            now,
                            0,
                        ),
                        o2,
                        current_user_id,
                        box_office_pricing,
                        now,
                    ),
                },
            },
        }
    }
}

fn same_id(a: Option<Id>, b: Option<Id>) -> (yes: bool)
    ensures
        yes == (a == b),
{
    match (a, b) {
        (Some(x), Some(y)) => x == y,
        (None, None) => true,
        _ => false,
    }
}

fn find_matching_wish(wishes: &Vec<MatchData>, line: &OrderItem) -> (found: Option<usize>)
    ensures
        match found {
            Some(j) => matching_wish_from(wishes@, *line, 0) == Some(j as int) && j < wishes.len(),
            None => matching_wish_from(wishes@, *line, 0) is None,
        },
{
    let mut k: usize = 0;
    while k < wishes.len()
        invariant
            k <= wishes.len(),
            matching_wish_from(wishes@, *line, k as int) == matching_wish_from(wishes@, *line, 0),
        decreases wishes.len() - k,
    {
        let wish = wishes[k];
        if wish.open && same_id(line.ticket_type_id, Some(wish.ticket_type_id)) && same_id(
            wish.redemption.hold_id(),
            line.hold_id,
        ) && same_id(wish.redemption.code_id(), line.code_id) {
            return Some(k);
        }
        k += 1;
    }
    None
}

fn limit_for(ticket_type: &TicketType, redemption: Redemption) -> (limit: i64)
    ensures
        limit == spec_limit(*ticket_type, redemption),
{
    match redemption.limit_per_person() {
        Some(limit) => limit,
        None => ticket_type.limit_per_person,
    }
}

fn offer(catalog: &Catalog, ticket_type_id: Id, box_office_pricing: bool, now: Timestamp) -> (res:
    Result<(TicketPricing, TicketType), DatabaseError>)
    ensures
        res == spec_offer(catalog@, ticket_type_id, box_office_pricing, now),
{
    let pricing = TicketPricing::get_current_ticket_pricing(
        ticket_type_id,
        box_office_pricing,
        catalog,
        now,
    )?;
    match find_index(&catalog.ticket_types, ticket_type_id) {
        None => Err(DatabaseError::NotFound { table: Tables::TicketTypes, id: ticket_type_id }),
        Some(i) => Ok((pricing, catalog.ticket_types[i])),
    }
}

fn try_remove_line(store: &mut Store, order: &Order, line: &OrderItem, quantity: i128) -> (res:
    Result<(), DatabaseError>)
    ensures
        match spec_remove_line(old(store)@, *order, *line, quantity as int) {
            Ok(s) => res is Ok && final(store)@ == s,
            Err(e) => res == Err::<(), DatabaseError>(e),
        },
{
    if quantity < 0 || quantity > u32::MAX as i128 {
        return Err(DatabaseError::ArithmeticOverflow);
    }
    TicketInstance::release_tickets(line, quantity as u32, store)?;
    order.destroy_item(line.id, store)
}

fn try_add_line(
    catalog: &Catalog,
    store: &mut Store,
    order: &Order,
    wish: MatchData,
    box_office_pricing: bool,
    now: Timestamp,
) -> (res: Result<LimitCheck, DatabaseError>)
    ensures
        match spec_add_line(catalog@, old(store)@, *order, wish, box_office_pricing, now) {
            Ok((s, check)) => res == Ok::<LimitCheck, DatabaseError>(check) && final(store)@ == s,
            Err(e) => res == Err::<LimitCheck, DatabaseError>(e),
        },
{
    let (pricing, ticket_type) = offer(catalog, wish.ticket_type_id, box_office_pricing, now)?;
    let price = TicketPricing::unit_price(pricing.price_in_cents, wish.redemption)?;
    let id = store.allocate_id()?;
    let item = OrderItem {
        id,
        order_id: order.id,
        item_type: OrderItemTypes::Tickets,
        ticket_type_id: Some(ticket_type.id),
        event_id: Some(ticket_type.event_id),
        quantity: wish.quantity as i64,
        unit_price_in_cents: price,
        ticket_pricing_id: Some(pricing.id),
        fee_schedule_range_id: None,
        parent_id: None,
        hold_id: wish.redemption.hold_id(),
        code_id: wish.redemption.code_id(),
        company_fee_in_cents: 0,
        client_fee_in_cents: 0,
        refunded_quantity: 0,
    };
    item.insert(store)?;
    TicketInstance::reserve_tickets(
        &item,
        order.expires_at,
        wish.ticket_type_id,
        wish.redemption.hold_id(),
        wish.quantity,
        store,
        now,
    )?;
    Ok(
        LimitCheck {
            ticket_type_id: ticket_type.id,
            hold_id: wish.redemption.hold_id(),
            limit_per_person: limit_for(&ticket_type, wish.redemption),
        },
    )
}

fn try_shrink_line(store: &mut Store, order: &Order, line: &OrderItem, quantity: u32) -> (res:
    Result<(), DatabaseError>)
    requires
        line.quantity > quantity,
    ensures
        match spec_shrink_line(old(store)@, *order, *line, quantity) {
            Ok(s) => res is Ok && final(store)@ == s,
            Err(e) => res == Err::<(), DatabaseError>(e),
        },
{
    let delta: i64 = line.quantity - quantity as i64;
    if delta > u32::MAX as i64 {
        return Err(DatabaseError::ArithmeticOverflow);
    }
    TicketInstance::release_tickets(line, delta as u32, store)?;
    let mut changed = *line;
    changed.quantity = quantity as i64;
    changed.update(store)?;
    if quantity == 0 {
        order.destroy_item(line.id, store)?;
    }
    Ok(())
}

fn try_grow_line(
    catalog: &Catalog,
    store: &mut Store,
    order: &Order,
    line: &OrderItem,
    wish: MatchData,
    box_office_pricing: bool,
    now: Timestamp,
) -> (res: Result<LimitCheck, DatabaseError>)
    requires
        line.quantity < wish.quantity,
    ensures
        match spec_grow_line(catalog@, old(store)@, *order, *line, wish, box_office_pricing, now) {
            Ok((s, check)) => res == Ok::<LimitCheck, DatabaseError>(check) && final(store)@ == s,
            Err(e) => res == Err::<LimitCheck, DatabaseError>(e),
        },
{
    let (pricing, ticket_type) = offer(catalog, wish.ticket_type_id, box_office_pricing, now)?;
    if !same_id(line.ticket_pricing_id, Some(pricing.id)) {
        try_remove_line(store, order, line, line.quantity as i128)?;
        return try_add_line(catalog, store, order, wish, box_office_pricing, now);
    }
    let delta: i128 = wish.quantity as i128 - line.quantity as i128;
    if delta > u32::MAX as i128 {
        return Err(DatabaseError::ArithmeticOverflow);
    }
    TicketInstance::reserve_tickets(
        line,
        order.expires_at,
        wish.ticket_type_id,
        wish.redemption.hold_id(),
        delta as u32,
        store,
        now,
    )?;
    let mut changed = *line;
    changed.quantity = wish.quantity as i64;
    changed.update(store)?;
    Ok(
        LimitCheck {
            ticket_type_id: ticket_type.id,
            hold_id: wish.redemption.hold_id(),
            limit_per_person: limit_for(&ticket_type, wish.redemption),
        },
    )
}

fn try_match_line(
    catalog: &Catalog,
    store: &mut Store,
    wishes: &mut Vec<MatchData>,
    checks: &mut Vec<LimitCheck>,
    order: &Order,
    line: &OrderItem,
    box_office_pricing: bool,
    remove_others: bool,
    now: Timestamp,
) -> (res: Result<(), DatabaseError>)
    ensures
        match spec_match_line(
            catalog@,
            CartWork { s: old(store)@, wishes: old(wishes)@, checks: old(checks)@ },
            *order,
            *line,
            box_office_pricing,
            remove_others,
            now,
        ) {
            Ok(w) => res is Ok && final(store)@ == w.s && final(wishes)@ == w.wishes
                && final(checks)@ == w.checks,
            Err(e) => res == Err::<(), DatabaseError>(e),
        },
{
    if line.item_type != OrderItemTypes::Tickets {
        return Ok(());
    }
    match find_matching_wish(wishes, line) {
        Some(j) => {
            let wish = wishes[j];
            wishes[j].open = false;
            assert(wishes@ =~= old(wishes)@.update(j as int, MatchData { open: false, ..wish }));
            if line.quantity > wish.quantity as i64 {
                try_shrink_line(store, order, line, wish.quantity)?;
            } else if line.quantity < wish.quantity as i64 {
                let check = try_grow_line(
                    catalog,
                    store,
                    order,
                    line,
                    wish,
                    box_office_pricing,
                    now,
                )?;
                checks.push(check);
            }
            Ok(())
        },
        None => {
            if remove_others {
                try_remove_line(store, order, line, line.quantity as i128)?;
            }
            Ok(())
        },
    }
}

fn resolve_wishes(catalog: &Catalog, items: &[UpdateOrderItem], now: Timestamp) -> (res: Result<
    Vec<MatchData>,
    DatabaseError,
>)
    ensures
        match resolve_from(catalog@, items@, now, 0, Seq::empty()) {
            Ok(wishes) => res is Ok && res->Ok_0@ == wishes,
            Err(e) => res == Err::<Vec<MatchData>, DatabaseError>(e),
        },
{
    let mut done: Vec<MatchData> = Vec::new();
    let mut k: usize = 0;
    while k < items.len()
        invariant
            k <= items.len(),
            resolve_from(catalog@, items@, now, k as int, done@) == resolve_from(
                catalog@,
                items@,
                now,
                0,
                Seq::empty(),
            ),
        decreases items.len() - k,
    {
        let redemption = resolve(catalog, &items[k].redemption_code, now)?;
        done.push(
            MatchData {
                open: true,
                ticket_type_id: items[k].ticket_type_id,
                quantity: items[k].quantity,
                redemption,
            },
        );
        k += 1;
    }
    Ok(done)
}

fn counts(
    store: &Store,
    k: usize,
    user_id: Id,
    ticket_type_id: Id,
    hold_id: Option<Id>,
    now: Timestamp,
) -> (yes: bool)
    requires
        k < store.ticket_instances.len(),
    ensures
        yes == counts_for_user(
            store@,
            store@.ticket_instances[k as int],
            user_id,
            ticket_type_id,
            hold_id,
            now,
        ),
{
    let t = &store.ticket_instances[k];
    let live = match t.status {
        TicketInstanceStatus::Purchased => true,
        TicketInstanceStatus::Reserved => match t.reserved_until {
            Some(until) => until > now,
            None => false,
        },
        _ => false,
    };
    if !live {
        return false;
    }
    let item_id = match t.order_item_id {
        Some(id) => id,
        None => {
            return false;
        },
    };
    let item = match find_index(&store.order_items, item_id) {
        Some(i) => store.order_items[i],
        None => {
            return false;
        },
    };
    if !same_id(item.ticket_type_id, Some(ticket_type_id)) || !same_id(item.hold_id, hold_id) {
        return false;
    }
    match find_index(&store.orders, item.order_id) {
        Some(o) => {
            let order = &store.orders[o];
            (order.user_id == user_id && order.on_behalf_of_user_id.is_none()) || same_id(
                order.on_behalf_of_user_id,
                Some(user_id),
            )
        },
        None => false,
    }
}

fn check_limits(store: &Store, user_id: Id, checks: &Vec<LimitCheck>, now: Timestamp) -> (res:
    Result<(), DatabaseError>)
    ensures
        res == limits_from(store@, user_id, checks@, now, 0),
{
    let mut k: usize = 0;
    while k < checks.len()
        invariant
            k <= checks.len(),
            limits_from(store@, user_id, checks@, now, k as int) == limits_from(
                store@,
                user_id,
                checks@,
                now,
                0,
            ),
        decreases checks.len() - k,
    {
        let check = checks[k];
        let ordered = Order::quantity_for_user_for_ticket_type_by_hold(
            user_id,
            check.ticket_type_id,
            check.hold_id,
            store,
            now,
        );
        if check.limit_per_person > 0 && ordered > check.limit_per_person as u64 {
            return Err(
                DatabaseError::LimitPerPersonExceeded {
                    ticket_type_id: check.ticket_type_id,
                    hold_id: check.hold_id,
                    limit_per_person: check.limit_per_person,
                    attempted_quantity: ordered,
                },
            );
        }
        k += 1;
    }
    Ok(())
}

impl Order {
    /// Deletes the item `item_id` and its children. Only a draft order
    /// allows that.
    pub fn destroy_item(&self, item_id: Id, store: &mut Store) -> (res: Result<(), DatabaseError>)
        ensures
            match spec_destroy_item(old(store)@, *self, item_id) {
                Ok(s) => res is Ok && final(store)@ == s,
                Err(e) => res == Err::<(), DatabaseError>(e) && final(store)@ == old(store)@,
            },
    {
        if self.status != OrderStatus::Draft {
            return Err(DatabaseError::DeleteFromNonDraftOrder);
        }
        OrderItem::destroy(item_id, store);
        Ok(())
    }

    /// How many instances of the ticket type under the hold the user has
    /// bought or holds at `now`, over all orders.
    pub fn quantity_for_user_for_ticket_type_by_hold(
        user_id: Id,
        ticket_type_id: Id,
        hold_id: Option<Id>,
        store: &Store,
        now: Timestamp,
    ) -> (quantity: u64)
        ensures
            quantity == spec_quantity_for_user(store@, user_id, ticket_type_id, hold_id, now),
    {
        let mut quantity: usize = 0;
        let mut k: usize = 0;
        while k < store.ticket_instances.len()
            invariant
                k <= store.ticket_instances.len(),
                quantity <= k,
                quantity == quantity_before(store@, user_id, ticket_type_id, hold_id, now, k as int),
            decreases store.ticket_instances.len() - k,
        {
            if counts(store, k, user_id, ticket_type_id, hold_id, now) {
                quantity += 1;
            }
            k += 1;
        }
        quantity as u64
    }

    /// Whether every line of the order `id` that belongs to an event belongs
    /// to the same one.
    pub fn order_contains_items_from_only_one_event(id: Id, store: &Store) -> (yes: bool)
        ensures
            yes == single_event(store@.order_items, id),
    {
        let mut first: Option<Id> = None;
        let ghost mut at: int = 0;
        let mut k: usize = 0;
        while k < store.order_items.len()
            invariant
                k <= store.order_items.len(),
                match first {
                    Some(e) => 0 <= at < k && store@.order_items[at].order_id == id
                        && store@.order_items[at].event_id == Some(e),
                    None => true,
                },
                forall|j: int|
                    0 <= j < k && (#[trigger] store@.order_items[j]).order_id == id
                        && store@.order_items[j].event_id is Some ==> store@.order_items[j].event_id
                        == first,
            decreases store.order_items.len() - k,
        {
            let item = store.order_items[k];
            if item.order_id == id {
                match item.event_id {
                    Some(e) => match first {
                        Some(f) => {
                            if f != e {
                                return false;
                            }
                        },
                        None => {
                            first = Some(e);
                            proof {
                                at = k as int;
                            }
                        },
                    },
                    None => {},
                }
            }
            k += 1;
        }
        true
    }

    /// Checks the order as a whole: its lines belong to one event.
    pub fn validate_record(&self, store: &Store) -> (res: Result<(), DatabaseError>)
        ensures
            res == spec_validate_record(store@, *self),
    {
        if Order::order_contains_items_from_only_one_event(self.id, store) {
            Ok(())
        } else {
            Err(DatabaseError::CartEventLimitReached { order_id: self.id })
        }
    }

    /// Clears the cart. Where it fails, the store may be cleared in part.
    pub(crate) fn try_clear_cart(&mut self, store: &mut Store, now: Timestamp) -> (res: Result<
        (),
        DatabaseError,
    >)
        ensures
            match spec_clear_cart(old(store)@, *old(self), now) {
                Ok((s, o)) => res is Ok && final(store)@ == s && *final(self) == o,
                Err(e) => res == Err::<(), DatabaseError>(e),
            },
    {
        self.lock_version(store, now)?;
        self.try_clear_lines(store)
    }

    /// Clears every line of the cart, without taking the lock. Where it
    /// fails, the store may be cleared in part.
    fn try_clear_lines(&self, store: &mut Store) -> (res: Result<(), DatabaseError>)
        ensures
            match clear_lines_from(
                old(store)@,
                *self,
                items_of(old(store)@.order_items, self.id),
                0,
            ) {
                Ok(s) => res is Ok && final(store)@ == s,
                Err(e) => res == Err::<(), DatabaseError>(e),
            },
    {
        let lines = self.items(store);
        let ghost goal = clear_lines_from(old(store)@, *self, lines@, 0);
        let mut k: usize = 0;
        while k < lines.len()
            invariant
                k <= lines.len(),
                lines@ == items_of(old(store)@.order_items, self.id),
                goal == clear_lines_from(old(store)@, *self, lines@, 0),
                goal == clear_lines_from(store@, *self, lines@, k as int),
            decreases lines.len() - k,
        {
            let line = lines[k];
            if line.item_type == OrderItemTypes::Tickets {
                let quantity = line.calculate_quantity(store);
                try_remove_line(store, self, &line, quantity as i128)?;
            } else {
                self.destroy_item(line.id, store)?;
            }
            k += 1;
        }
        Ok(())
    }

    /// Clears the cart: every ticket line gives back the instances that
    /// belong to it, and every line is deleted. Where it fails, nothing
    /// changes.
    pub fn clear_cart(&mut self, store: &mut Store, now: Timestamp) -> (res: Result<
        (),
        DatabaseError,
    >)
        ensures
            match spec_clear_cart(old(store)@, *old(self), now) {
                Ok((s, o)) => res is Ok && final(store)@ == s && *final(self) == o,
                Err(e) => res == Err::<(), DatabaseError>(e) && final(store)@ == old(store)@
                    && *final(self) == *old(self),
            },
    {
        let saved = store.snapshot();
        let before = self.clone();
        let res = self.try_clear_cart(store, now);
        if res.is_err() {
            *store = saved;
            *self = before;
        }
        res
    }

    fn try_clear_invalid_items(&mut self, catalog: &Catalog, store: &mut Store, now: Timestamp) -> (res:
        Result<(), DatabaseError>)
        ensures
            match spec_clear_invalid_items(catalog@, old(store)@, *old(self), now) {
                Ok((s, o)) => res is Ok && final(store)@ == s && *final(self) == o,
                Err(e) => res == Err::<(), DatabaseError>(e),
            },
    {
        if self.status != OrderStatus::Draft {
            return Err(DatabaseError::OrderNotDraft);
        }
        self.lock_version(store, now)?;
        let lines = self.order_items_in_invalid_state(catalog, store, now);
        let ghost goal = spec_clear_invalid_items(catalog@, old(store)@, *old(self), now);
        let mut k: usize = 0;
        while k < lines.len()
            invariant
                k <= lines.len(),
                goal == spec_clear_invalid_items(catalog@, old(store)@, *old(self), now),
                goal == with_order(drop_lines_from(store@, *self, lines@, k as int), *self),
            decreases lines.len() - k,
        {
            let line = lines[k];
            let held = TicketInstance::count_held(line.id, store);
            try_remove_line(store, self, &line, held as i128)?;
            k += 1;
        }
        Ok(())
    }

    /// Clears the ticket lines of a draft cart that cannot be bought as
    /// they stand at `now`: because their code or hold is no longer valid,
    /// a ticket of theirs was declared void, or they do not hold as many
    /// tickets as they count. Each such line gives back the instances that
    /// it holds and is deleted with its fees and discounts. Where it
    /// fails, nothing changes.
    pub fn clear_invalid_items(&mut self, catalog: &Catalog, store: &mut Store, now: Timestamp) -> (res:
        Result<(), DatabaseError>)
        ensures
            match spec_clear_invalid_items(catalog@, old(store)@, *old(self), now) {
                Ok((s, o)) => res is Ok && final(store)@ == s && *final(self) == o,
                Err(e) => res == Err::<(), DatabaseError>(e) && final(store)@ == old(store)@
                    && *final(self) == *old(self),
            },
    {
        let saved = store.snapshot();
        let before = self.clone();
        let res = self.try_clear_invalid_items(catalog, store, now);
        if res.is_err() {
            *store = saved;
            *self = before;
        }
        res
    }

    fn try_switch_pricing(
        &mut self,
        current_user_id: Id,
        box_office_pricing: bool,
        store: &mut Store,
        now: Timestamp,
    ) -> (res: Result<(), DatabaseError>)
        ensures
            match spec_switch_pricing(
                old(store)@,
                *old(self),
                current_user_id,
                box_office_pricing,
                now,
            ) {
                Ok((s, o)) => res is Ok && final(store)@ == s && *final(self) == o,
                Err(e) => res == Err::<(), DatabaseError>(e),
            },
    {
        if box_office_pricing != self.box_office_pricing {
            self.try_clear_lines(store)?;
            self.update_box_office_pricing(box_office_pricing, current_user_id, store, now)?;
        }
        Ok(())
    }

    fn try_finish_update(
        &mut self,
        current_user_id: Id,
        wishes: &Vec<MatchData>,
        checks: &mut Vec<LimitCheck>,
        box_office_pricing: bool,
        catalog: &Catalog,
        store: &mut Store,
        now: Timestamp,
    ) -> (res: Result<(), DatabaseError>)
        ensures
            match spec_finish_update(
                catalog@,
                CartWork { s: old(store)@, wishes: wishes@, checks: old(checks)@ },
                *old(self),
                current_user_id,
                box_office_pricing,
                now,
            ) {
                Ok((s, o)) => res is Ok && final(store)@ == s && *final(self) == o,
                Err(e) => res == Err::<(), DatabaseError>(e),
            },
    {
        if self.expires_at.is_none() {
            self.set_expiry(Some(current_user_id), None, store, now)?;
        }
        let ghost goal = spec_finish_update(
            catalog@,
            CartWork { s: old(store)@, wishes: wishes@, checks: old(checks)@ },
            *old(self),
            current_user_id,
            box_office_pricing,
            now,
        );
        let mut k: usize = 0;
        while k < wishes.len()
            invariant
                k <= wishes.len(),
                goal == spec_finish_update(
                    catalog@,
                    CartWork { s: old(store)@, wishes: wishes@, checks: old(checks)@ },
                    *old(self),
                    current_user_id,
                    box_office_pricing,
                    now,
                ),
                goal == spec_after_lines(
                    catalog@,
                    add_wishes_from(
                        catalog@,
                        CartWork { s: store@, wishes: wishes@, checks: checks@ },
                        *self,
                        box_office_pricing,
                        now,
                        k as int,
                    ),
                    *self,
                    current_user_id,
                    now,
                ),
            decreases wishes.len() - k,
        {
            let wish = wishes[k];
            if wish.quantity != 0 && wish.open {
                let check = try_add_line(catalog, store, self, wish, box_office_pricing, now)?;
                checks.push(check);
            }
            k += 1;
        }
        check_limits(store, self.user_id, checks, now)?;
        self.try_update_fees(catalog, store)?;
        if !self.has_items(store) {
            self.remove_expiry(current_user_id, store, now)?;
        }
        self.validate_record(store)
    }

    /// Updates the quantities. Where it fails, the store may hold a part of
    /// the update.
    fn try_update_quantities(
        &mut self,
        current_user_id: Id,
        items: &[UpdateOrderItem],
        box_office_pricing: bool,
        remove_others: bool,
        catalog: &Catalog,
        store: &mut Store,
        now: Timestamp,
    ) -> (res: Result<(), DatabaseError>)
        ensures
            match spec_update_quantities(
                catalog@,
                old(store)@,
                *old(self),
                current_user_id,
                items@,
                box_office_pricing,
                remove_others,
                now,
            ) {
                Ok((s, o)) => res is Ok && final(store)@ == s && *final(self) == o,
                Err(e) => res == Err::<(), DatabaseError>(e),
            },
    {
        if self.status != OrderStatus::Draft {
            return Err(DatabaseError::OrderNotDraft);
        }
        self.lock_version(store, now)?;
        self.try_switch_pricing(current_user_id, box_office_pricing, store, now)?;
        let mut wishes = resolve_wishes(catalog, items, now)?;
        let mut checks: Vec<LimitCheck> = Vec::new();
        let lines = self.items(store);
        let ghost goal = spec_update_quantities(
            catalog@,
            old(store)@,
            *old(self),
            current_user_id,
            items@,
            box_office_pricing,
            remove_others,
            now,
        );
        let mut k: usize = 0;
        while k < lines.len()
            invariant
                k <= lines.len(),
                goal == spec_update_quantities(
                    catalog@,
                    old(store)@,
                    *old(self),
                    current_user_id,
                    items@,
                    box_office_pricing,
                    remove_others,
                    now,
                ),
                goal == spec_after_match(
                    catalog@,
                    match_lines_from(
                        catalog@,
                        CartWork { s: store@, wishes: wishes@, checks: checks@ },
                        *self,
                        lines@,
                        box_office_pricing,
                        remove_others,
                        now,
                        k as int,
                    ),
                    *self,
                    current_user_id,
                    box_office_pricing,
                    now,
                ),
            decreases lines.len() - k,
        {
            try_match_line(
                catalog,
                store,
                &mut wishes,
                &mut checks,
                self,
                &lines[k],
                box_office_pricing,
                remove_others,
                now,
            )?;
            k += 1;
        }
        self.try_finish_update(
            current_user_id,
            &wishes,
            &mut checks,
            box_office_pricing,
            catalog,
            store,
            now,
        )
    }

    /// Brings the ticket lines of a draft cart to the quantities in `items`,
    /// reserving and releasing instances as needed, and recomputes fees.
    /// With `remove_others`, lines that `items` does not name are removed.
    /// Where it fails, nothing changes: neither the store nor this value.
    pub fn update_quantities(
        &mut self,
        current_user_id: Id,
        items: &[UpdateOrderItem],
        box_office_pricing: bool,
        remove_others: bool,
        catalog: &Catalog,
        store: &mut Store,
        now: Timestamp,
    ) -> (res: Result<(), DatabaseError>)
        ensures
            match spec_update_quantities(
                catalog@,
                old(store)@,
                *old(self),
                current_user_id,
                items@,
                box_office_pricing,
                remove_others,
                now,
            ) {
                Ok((s, o)) => res is Ok && final(store)@ == s && *final(self) == o,
                Err(e) => res == Err::<(), DatabaseError>(e) && final(store)@ == old(store)@
                    && *final(self) == *old(self),
            },
    {
        let saved = store.snapshot();
        let before = self.clone();
        let res = self.try_update_quantities(
            current_user_id,
            items,
            box_office_pricing,
            remove_others,
            catalog,
            store,
            now,
        );
        if res.is_err() {
            *store = saved;
            *self = before;
        }
        res
    }
}

} // verus!
