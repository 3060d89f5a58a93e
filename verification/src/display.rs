//! What a buyer is shown of an order: whether it can still be bought, and
//! how long the cart has left.

use vstd::prelude::*;
use crate::errors::DatabaseError;
use crate::identifiers::spec_order_number;
use crate::model::{Order, OrderItem, TicketInstance};
use crate::payments::spec_calculate_total;
use crate::redemption::{code_valid, hold_valid};
use crate::store::{find_index, index_of, Catalog, CatalogState, Store, StoreState};
use crate::types::{
    CartItemStatus, Id, OrderItemTypes, OrderStatus, TicketInstanceStatus, Timestamp,
};

verus! {

/// Microseconds in one second.
pub const MICROS_PER_SECOND: i64 = 1_000_000;

/// A line of an order as a buyer sees it.
#[derive(Clone, Copy, PartialEq, Eq, Debug, Structural)]
pub struct DisplayOrderItem {
    pub id: Id,
    pub parent_id: Option<Id>,
    pub ticket_type_id: Option<Id>,
    pub item_type: OrderItemTypes,
    pub quantity: i64,
    pub refunded_quantity: i64,
    pub unit_price_in_cents: i64,
    /// Whether the line can still be bought; `None` for a line that is no
    /// cart line.
    pub cart_item_status: Option<CartItemStatus>,
}

/// Whether the line stands in the way of a purchase: it has a status, and
/// the status is not `Valid`.
pub open spec fn blocks_purchase(item: DisplayOrderItem) -> bool {
    item.cart_item_status is Some && item.cart_item_status != Some(CartItemStatus::Valid)
}

/// Whether an order can be bought as it stands: nothing for an order that
/// is no draft; for a draft, whether no line stands in the way.
pub open spec fn spec_valid_for_purchase(status: OrderStatus, items: Seq<DisplayOrderItem>) -> Option<
    bool,
> {
    if status != OrderStatus::Draft {
        None
    } else {
        Some(forall|i: int| 0 <= i < items.len() ==> !blocks_purchase(#[trigger] items[i]))
    }
}

/// How many whole seconds an order has left at `now`: nothing for an order
/// without expiry, zero for one that ran out.
pub open spec fn spec_seconds_until_expiry(expires_at: Option<Timestamp>, now: Timestamp) -> Option<
    int,
> {
    match expires_at {
        None => None,
        Some(t) => if t >= now {
            Some((t - now) / (MICROS_PER_SECOND as int))
        } else {
            Some(0)
        },
    }
}

/// The seconds as a buyer is shown them, which is at most what 32 bits hold.
pub open spec fn shown_seconds(seconds: Option<int>) -> Option<u32> {
    match seconds {
        None => None,
        Some(n) => if n > u32::MAX {
            Some(u32::MAX)
        } else {
            Some(n as u32)
        },
    }
}

/// The order as a buyer is shown it.
pub struct DisplayOrder {
    pub id: Id,
    pub status: OrderStatus,
    pub date: Timestamp,
    pub expires_at: Option<Timestamp>,
    pub seconds_until_expiry: Option<u32>,
    pub items: Vec<DisplayOrderItem>,
    pub total_in_cents: i64,
    pub user_id: Id,
    pub note: Option<String>,
    pub order_number: String,
    pub paid_at: Option<Timestamp>,
    /// Where the buyer pays, as long as the address has not run out.
    pub checkout_url: Option<String>,
    pub valid_for_purchase: Option<bool>,
}

impl DisplayOrder {
    /// Whether an order with the status and the lines can be bought as it
    /// stands. Only a draft is judged.
    pub fn valid_for_purchase(status: OrderStatus, items: &Vec<DisplayOrderItem>) -> (valid: Option<
        bool,
    >)
        ensures
            valid == spec_valid_for_purchase(status, items@),
    {
        if status != OrderStatus::Draft {
            return None;
        }
        let mut k: usize = 0;
        while k < items.len()
            invariant
                k <= items.len(),
                status == OrderStatus::Draft,
                forall|i: int| 0 <= i < k ==> !blocks_purchase(#[trigger] items@[i]),
            decreases items.len() - k,
        {
            let blocked = match items[k].cart_item_status {
                Some(CartItemStatus::Valid) => false,
                Some(_) => true,
                None => false,
            };
            if blocked {
                assert(blocks_purchase(items@[k as int]));
                return Some(false);
            }
            k += 1;
        }
        Some(true)
    }
}

/// `Utc::now` of the chrono crate, as microseconds since the Unix epoch.
/// Nothing is known of the instant.
#[verifier::external_body]
fn utc_now() -> Timestamp {
    chrono::Utc::now().timestamp_micros()
}

impl Order {
    /// How many whole seconds the order has left at `now`: nothing for an
    /// order without expiry, zero for one that ran out, and at most what 32
    /// bits hold.
    pub fn seconds_until_expiry_at(&self, now: Timestamp) -> (seconds: Option<u32>)
        ensures
            seconds == shown_seconds(spec_seconds_until_expiry(self.expires_at, now)),
    {
        match self.expires_at {
            None => None,
            Some(t) => {
                if t >= now {
                    let left: i128 = (t as i128 - now as i128) / (MICROS_PER_SECOND as i128);
                    if left > u32::MAX as i128 {
                        Some(u32::MAX)
                    } else {
                        Some(left as u32)
                    }
                } else {
                    Some(0)
                }
            },
        }
    }

    /// How many whole seconds the order has left by the clock of the
    /// machine: what `seconds_until_expiry_at` gives for the instant that
    /// the clock shows.
    pub fn seconds_until_expiry(&self) -> (seconds: Option<u32>)
        ensures
            exists|now: Timestamp|
                seconds == shown_seconds(#[trigger] spec_seconds_until_expiry(self.expires_at, now)),
    {
        let now = utc_now();
        self.seconds_until_expiry_at(now)
    }
}

/// Whether the line was bought under a code that is not valid at `now`.
pub open spec fn line_code_expired(c: CatalogState, line: OrderItem, now: Timestamp) -> bool {
    &&& line.code_id is Some
    &&& index_of(c.codes, line.code_id->0) is Some
    &&& !code_valid(c.codes[index_of(c.codes, line.code_id->0)->0], now)
}

/// Whether the line was bought under a hold that has ended at `now`.
pub open spec fn line_hold_expired(c: CatalogState, line: OrderItem, now: Timestamp) -> bool {
    &&& line.hold_id is Some
    &&& index_of(c.holds, line.hold_id->0) is Some
    &&& !hold_valid(c.holds[index_of(c.holds, line.hold_id->0)->0], now)
}

/// Whether a ticket of the line was declared void.
pub open spec fn line_has_void_ticket(ts: Seq<TicketInstance>, item_id: Id) -> bool {
    exists|i: int|
        0 <= i < ts.len() && (#[trigger] ts[i]).order_item_id == Some(item_id) && ts[i].status
            == TicketInstanceStatus::Nullified
}

/// Whether the line holds the ticket at `now`: the reservation stands.
pub open spec fn holds_at(t: TicketInstance, item_id: Id, now: Timestamp) -> bool {
    &&& t.order_item_id == Some(item_id)
    &&& t.status == TicketInstanceStatus::Reserved
    &&& (t.reserved_until is None || t.reserved_until->0 > now)
}

/// How many of the first `k` tickets the line holds at `now`.
pub open spec fn holds_before(ts: Seq<TicketInstance>, item_id: Id, now: Timestamp, k: int) -> nat
    decreases k,
{
    if k <= 0 {
        0
    } else {
        holds_before(ts, item_id, now, k - 1) + if holds_at(ts[k - 1], item_id, now) {
            1nat
        } else {
            0nat
        }
    }
}

/// Whether a cart line can still be bought at `now`, and if not, the first
/// reason of: its code is not valid, its hold has ended, a ticket of it was
/// declared void, it does not hold as many tickets as it counts.
pub open spec fn spec_cart_item_status(
    c: CatalogState,
    s: StoreState,
    line: OrderItem,
    now: Timestamp,
) -> CartItemStatus {
    if line_code_expired(c, line, now) {
        CartItemStatus::CodeExpired
    } else if line_hold_expired(c, line, now) {
        CartItemStatus::HoldExpired
    } else if line_has_void_ticket(s.ticket_instances, line.id) {
        CartItemStatus::TicketNullified
    } else if holds_before(s.ticket_instances, line.id, now, s.ticket_instances.len() as int)
        != line.quantity {
        CartItemStatus::TicketNotReserved
    } else {
        CartItemStatus::Valid
    }
}

/// The line as a buyer is shown it. Only a ticket line has a status.
pub open spec fn shown_item(c: CatalogState, s: StoreState, line: OrderItem, now: Timestamp) -> DisplayOrderItem {
    DisplayOrderItem {
        id: line.id,
        parent_id: line.parent_id,
        ticket_type_id: line.ticket_type_id,
        item_type: line.item_type,
        quantity: line.quantity,
        refunded_quantity: line.refunded_quantity,
        unit_price_in_cents: line.unit_price_in_cents,
        cart_item_status: if line.item_type == OrderItemTypes::Tickets {
            Some(spec_cart_item_status(c, s, line, now))
        } else {
            None
        },
    }
}

/// The lines of the order among the first `k` rows, as a buyer is shown them.
pub open spec fn shown_items_upto(
    c: CatalogState,
    s: StoreState,
    order_id: Id,
    now: Timestamp,
    k: int,
) -> Seq<DisplayOrderItem>
    decreases k,
{
    if k <= 0 {
        Seq::empty()
    } else {
        let rest = shown_items_upto(c, s, order_id, now, k - 1);
        if s.order_items[k - 1].order_id == order_id {
            rest.push(shown_item(c, s, s.order_items[k - 1], now))
        } else {
            rest
        }
    }
}

/// The lines of the order as a buyer is shown them, in table order.
pub open spec fn shown_items(c: CatalogState, s: StoreState, order_id: Id, now: Timestamp) -> Seq<
    DisplayOrderItem,
> {
    shown_items_upto(c, s, order_id, now, s.order_items.len() as int)
}

/// Whether the row is a ticket line of the order that cannot be bought as
/// it stands at `now`.
pub open spec fn invalid_line(
    c: CatalogState,
    s: StoreState,
    line: OrderItem,
    order_id: Id,
    now: Timestamp,
) -> bool {
    line.order_id == order_id && line.item_type == OrderItemTypes::Tickets && spec_cart_item_status(
        c,
        s,
        line,
        now,
    ) != CartItemStatus::Valid
}

/// The ticket lines of the order among the first `k` rows that cannot be
/// bought as they stand at `now`.
pub open spec fn invalid_lines_upto(
    c: CatalogState,
    s: StoreState,
    order_id: Id,
    now: Timestamp,
    k: int,
) -> Seq<OrderItem>
    decreases k,
{
    if k <= 0 {
        Seq::empty()
    } else {
        let rest = invalid_lines_upto(c, s, order_id, now, k - 1);
        if invalid_line(c, s, s.order_items[k - 1], order_id, now) {
            rest.push(s.order_items[k - 1])
        } else {
            rest
        }
    }
}

/// The ticket lines of the order that cannot be bought as they stand at `now`.
pub open spec fn invalid_lines(c: CatalogState, s: StoreState, order_id: Id, now: Timestamp) -> Seq<
    OrderItem,
> {
    invalid_lines_upto(c, s, order_id, now, s.order_items.len() as int)
}

/// The address at which the buyer pays, as it is shown at `now`: the
/// address of the order while its end lies after `now`, else nothing.
pub open spec fn shown_checkout_url(order: Order, now: Timestamp) -> Option<String> {
    if order.checkout_url_expires is Some && order.checkout_url_expires->0 > now {
        order.checkout_url
    } else {
        None
    }
}

fn copy_text(text: &Option<String>) -> (copy: Option<String>)
    ensures
        copy == *text,
{
    match text {
        Some(s) => Some(s.clone()),
        None => None,
    }
}

fn has_void_ticket(store: &Store, item_id: Id) -> (yes: bool)
    ensures
        yes == line_has_void_ticket(store@.ticket_instances, item_id),
{
    let mut k: usize = 0;
    while k < store.ticket_instances.len()
        invariant
            k <= store.ticket_instances.len(),
            forall|i: int|
                0 <= i < k ==> !((#[trigger] store@.ticket_instances[i]).order_item_id == Some(
                    item_id,
                ) && store@.ticket_instances[i].status == TicketInstanceStatus::Nullified),
        decreases store.ticket_instances.len() - k,
    {
        let t = &store.ticket_instances[k];
        let linked = match t.order_item_id {
            Some(id) => id == item_id,
            None => false,
        };
        if linked && t.status == TicketInstanceStatus::Nullified {
            return true;
        }
        k += 1;
    }
    false
}

fn count_holds(store: &Store, item_id: Id, now: Timestamp) -> (count: usize)
    ensures
        count == holds_before(
            store@.ticket_instances,
            item_id,
            now,
            store@.ticket_instances.len() as int,
        ),
{
    let mut count: usize = 0;
    let mut k: usize = 0;
    while k < store.ticket_instances.len()
        invariant
            k <= store.ticket_instances.len(),
            count <= k,
            count == holds_before(store@.ticket_instances, item_id, now, k as int),
        decreases store.ticket_instances.len() - k,
    {
        let t = &store.ticket_instances[k];
        let linked = match t.order_item_id {
            Some(id) => id == item_id,
            None => false,
        };
        let stands = match t.reserved_until {
            Some(until) => until > now,
            None => true,
        };
        if linked && t.status == TicketInstanceStatus::Reserved && stands {
            count += 1;
        }
        k += 1;
    }
    count
}

impl OrderItem {
    /// Whether this cart line can still be bought at `now`, and if not, the
    /// first reason of: its code is not valid, its hold has ended, a ticket
    /// of it was declared void, it does not hold as many tickets as it
    /// counts.
    pub fn cart_item_status(&self, catalog: &Catalog, store: &Store, now: Timestamp) -> (status:
        CartItemStatus)
        ensures
            status == spec_cart_item_status(catalog@, store@, *self, now),
    {
        let code_expired = match self.code_id {
            None => false,
            Some(code_id) => match find_index(&catalog.codes, code_id) {
                None => false,
                Some(i) => catalog.codes[i].confirm_code_valid(now).is_err(),
            },
        };
        if code_expired {
            return CartItemStatus::CodeExpired;
        }
        let hold_expired = match self.hold_id {
            None => false,
            Some(hold_id) => match find_index(&catalog.holds, hold_id) {
                None => false,
                Some(i) => catalog.holds[i].confirm_hold_valid(now).is_err(),
            },
        };
        if hold_expired {
            return CartItemStatus::HoldExpired;
        }
        if has_void_ticket(store, self.id) {
            return CartItemStatus::TicketNullified;
        }
        let held = count_holds(store, self.id, now);
        if self.quantity < 0 || held as u64 != self.quantity as u64 {
            return CartItemStatus::TicketNotReserved;
        }
        CartItemStatus::Valid
    }
}

impl Order {
    /// The lines of the order as a buyer is shown them at `now`, in table
    /// order. A ticket line says whether it can still be bought.
    pub fn items_for_display(&self, catalog: &Catalog, store: &Store, now: Timestamp) -> (items: Vec<
        DisplayOrderItem,
    >)
        ensures
            items@ == shown_items(catalog@, store@, self.id, now),
    {
        let mut items: Vec<DisplayOrderItem> = Vec::new();
        let mut k: usize = 0;
        while k < store.order_items.len()
            invariant
                k <= store.order_items.len(),
                items@ == shown_items_upto(catalog@, store@, self.id, now, k as int),
            decreases store.order_items.len() - k,
        {
            let line = store.order_items[k];
            if line.order_id == self.id {
                let status = match line.item_type {
                    OrderItemTypes::Tickets => Some(line.cart_item_status(catalog, store, now)),
                    _ => None,
                };
                items.push(
                    DisplayOrderItem {
                        id: line.id,
                        parent_id: line.parent_id,
                        ticket_type_id: line.ticket_type_id,
                        item_type: line.item_type,
                        quantity: line.quantity,
                        refunded_quantity: line.refunded_quantity,
                        unit_price_in_cents: line.unit_price_in_cents,
                        cart_item_status: status,
                    },
                );
            }
            k += 1;
        }
        items
    }

    /// The ticket lines of the order that cannot be bought as they stand at
    /// `now`, in table order.
    pub fn order_items_in_invalid_state(
        &self,
        catalog: &Catalog,
        store: &Store,
        now: Timestamp,
    ) -> (lines: Vec<OrderItem>)
        ensures
            lines@ == invalid_lines(catalog@, store@, self.id, now),
    {
        let mut lines: Vec<OrderItem> = Vec::new();
        let mut k: usize = 0;
        while k < store.order_items.len()
            invariant
                k <= store.order_items.len(),
                lines@ == invalid_lines_upto(catalog@, store@, self.id, now, k as int),
            decreases store.order_items.len() - k,
        {
            let line = store.order_items[k];
            if line.order_id == self.id && line.item_type == OrderItemTypes::Tickets {
                match line.cart_item_status(catalog, store, now) {
                    CartItemStatus::Valid => {},
                    _ => {
                        lines.push(line);
                    },
                }
            }
            k += 1;
        }
        lines
    }

    /// Whether every ticket line of the order can be bought as it stands at
    /// `now`.
    pub fn items_valid_for_purchase(&self, catalog: &Catalog, store: &Store, now: Timestamp) -> (valid:
        bool)
        ensures
            valid == (invalid_lines(catalog@, store@, self.id, now).len() == 0),
    {
        self.order_items_in_invalid_state(catalog, store, now).len() == 0
    }

    /// The address at which the buyer pays, as it is shown at `now`: the
    /// address of the order while its end lies after `now`, else nothing.
    pub fn checkout_url_at(&self, now: Timestamp) -> (url: Option<String>)
        ensures
            url == shown_checkout_url(*self, now),
    {
        match self.checkout_url_expires {
            Some(end) => {
                if end > now {
                    copy_text(&self.checkout_url)
                } else {
                    None
                }
            },
            None => None,
        }
    }

    /// The order as a buyer is shown it at `now`: its lines with their
    /// status, its total, the whole seconds that it has left, its order
    /// number, and the address at which the buyer pays while that has not
    /// run out. Fails only where the total cannot be added up. Nothing is
    /// changed.
    pub fn for_display(&self, catalog: &Catalog, store: &Store, now: Timestamp) -> (res: Result<
        DisplayOrder,
        DatabaseError,
    >)
        ensures
            match spec_calculate_total(store@, self.id) {
                Err(e) => res is Err && res->Err_0 == e,
                Ok(total) => res is Ok && {
                    let shown = res->Ok_0;
                    &&& shown.id == self.id
                    &&& shown.status == self.status
                    &&& shown.date == self.order_date
                    &&& shown.expires_at == self.expires_at
                    &&& shown.seconds_until_expiry == shown_seconds(
                        spec_seconds_until_expiry(self.expires_at, now),
                    )
                    &&& shown.items@ == shown_items(catalog@, store@, self.id, now)
                    &&& shown.total_in_cents == total
                    &&& shown.user_id == self.user_id
                    &&& shown.note == self.note
                    &&& shown.order_number@ == spec_order_number(self.id)
                    &&& shown.paid_at == self.paid_at
                    &&& shown.checkout_url == shown_checkout_url(*self, now)
                    &&& shown.valid_for_purchase == spec_valid_for_purchase(
                        self.status,
                        shown_items(catalog@, store@, self.id, now),
                    )
                },
            },
    {
        let total = self.calculate_total(store)?;
        let items = self.items_for_display(catalog, store, now);
        let valid_for_purchase = DisplayOrder::valid_for_purchase(self.status, &items);
        Ok(
            DisplayOrder {
                id: self.id,
                status: self.status,
                date: self.order_date,
                expires_at: self.expires_at,
                seconds_until_expiry: self.seconds_until_expiry_at(now),
                items,
                total_in_cents: total,
                user_id: self.user_id,
                note: copy_text(&self.note),
                order_number: self.order_number(),
                paid_at: self.paid_at,
                checkout_url: self.checkout_url_at(now),
                valid_for_purchase,
            },
        )
    }
}

} // verus!
