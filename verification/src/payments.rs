//! The payment ledger: what an order costs, what has been paid, and what
//! happens when the two meet.

use vstd::prelude::*;
use vstd::string::StringExecFns;
use crate::checkout::spec_set_external_payment_type;
use crate::domain_events::{spec_record_event, spec_schedule_action};
use crate::errors::DatabaseError;
use crate::model::{
    DomainAction, DomainEvent, DomainEventTicket, EventData, NewPayment, Order, OrderItem, Payment,
    TicketInstance, User,
};
use crate::order_items::items_of;
use crate::orders::{spec_update_status, Outcome};
use crate::redemption::code_valid;
use crate::store::{find_index, index_of, take_id, Catalog, CatalogState, Store, StoreState};
use crate::types::{
    fits_i64, DomainActionTypes, DomainEventTypes, ExternalPaymentType, Id, OrderItemTypes,
    OrderStatus, PaymentMethods, PaymentProviders, PaymentStatus, Tables, TicketInstanceStatus,
    Timestamp,
};

verus! {

/// How many days the message about a completed purchase may wait to be sent.
pub const PURCHASE_COMMUNICATION_DAYS: i64 = 3;

/// What a line adds to the total of its order: its unit price for every
/// unit that was not refunded.
pub open spec fn line_total(item: OrderItem) -> int {
    item.unit_price_in_cents * (item.quantity - item.refunded_quantity)
}

/// The sum of the line totals from the `k`th line on.
pub open spec fn total_of(lines: Seq<OrderItem>, k: int) -> int
    decreases lines.len() - k,
{
    if k < 0 || k >= lines.len() {
        0
    } else {
        line_total(lines[k]) + total_of(lines, k + 1)
    }
}

/// `acc` and the line totals from the `k`th line on, added from left to
/// right in 64 bits; `None` where a step leaves that range.
pub open spec fn sum_lines_from(lines: Seq<OrderItem>, k: int, acc: int) -> Option<int>
    decreases lines.len() - k,
{
    if k < 0 || k >= lines.len() {
        Some(acc)
    } else if fits_i64(lines[k].quantity - lines[k].refunded_quantity) && fits_i64(
        line_total(lines[k]),
    ) && fits_i64(acc + line_total(lines[k])) {
        sum_lines_from(lines, k + 1, acc + line_total(lines[k]))
    } else {
        None
    }
}

/// Where the sum in 64 bits exists, it is the sum.
pub proof fn lemma_sum_lines(lines: Seq<OrderItem>, k: int, acc: int)
    requires
        0 <= k,
        sum_lines_from(lines, k, acc) is Some,
    ensures
        sum_lines_from(lines, k, acc) == Some(acc + total_of(lines, k)),
    decreases lines.len() - k,
{
    if k < lines.len() {
        lemma_sum_lines(lines, k + 1, acc + line_total(lines[k]));
    }
}

/// The total of the order `order_id`, or an error where it cannot be added up.
pub open spec fn spec_calculate_total(s: StoreState, order_id: Id) -> Result<i64, DatabaseError> {
    match sum_lines_from(items_of(s.order_items, order_id), 0, 0) {
        Some(total) => Ok(total as i64),
        None => Err(DatabaseError::ArithmeticOverflow),
    }
}

/// Whether the payment counts as money received for `order_id`.
pub open spec fn counts_as_paid(p: Payment, order_id: Id) -> bool {
    p.order_id == order_id && p.status == PaymentStatus::Completed
}

/// The sum of the completed payments for `order_id` from the `k`th payment on.
pub open spec fn paid_of(payments: Seq<Payment>, order_id: Id, k: int) -> int
    decreases payments.len() - k,
{
    if k < 0 || k >= payments.len() {
        0
    } else {
        (if counts_as_paid(payments[k], order_id) {
            payments[k].amount as int
        } else {
            0
        }) + paid_of(payments, order_id, k + 1)
    }
}

/// `acc` and the completed payments for `order_id` from the `k`th on, added
/// from left to right in 64 bits; `None` where a step leaves that range.
pub open spec fn sum_paid_from(payments: Seq<Payment>, order_id: Id, k: int, acc: int) -> Option<int>
    decreases payments.len() - k,
{
    if k < 0 || k >= payments.len() {
        Some(acc)
    } else if !counts_as_paid(payments[k], order_id) {
        sum_paid_from(payments, order_id, k + 1, acc)
    } else if fits_i64(acc + payments[k].amount) {
        sum_paid_from(payments, order_id, k + 1, acc + payments[k].amount)
    } else {
        None
    }
}

/// Where the sum in 64 bits exists, it is the sum.
pub proof fn lemma_sum_paid(payments: Seq<Payment>, order_id: Id, k: int, acc: int)
    requires
        0 <= k,
        sum_paid_from(payments, order_id, k, acc) is Some,
    ensures
        sum_paid_from(payments, order_id, k, acc) == Some(acc + paid_of(payments, order_id, k)),
    decreases payments.len() - k,
{
    if k < payments.len() {
        if counts_as_paid(payments[k], order_id) {
            lemma_sum_paid(payments, order_id, k + 1, acc + payments[k].amount);
        } else {
            lemma_sum_paid(payments, order_id, k + 1, acc);
        }
    }
}

/// The payments for `order_id` among the first `k`, in table order.
pub open spec fn payments_of_upto(payments: Seq<Payment>, order_id: Id, k: int) -> Seq<Payment>
    decreases k,
{
    if k <= 0 {
        Seq::empty()
    } else {
        let rest = payments_of_upto(payments, order_id, k - 1);
        if payments[k - 1].order_id == order_id {
            rest.push(payments[k - 1])
        } else {
            rest
        }
    }
}

/// What has been paid for the order `order_id`, or an error where it cannot
/// be added up.
pub open spec fn spec_total_paid(s: StoreState, order_id: Id) -> Result<i64, DatabaseError> {
    match sum_paid_from(s.payments, order_id, 0, 0) {
        Some(total) => Ok(total as i64),
        None => Err(DatabaseError::ArithmeticOverflow),
    }
}

/// Whether `t` is held by a ticket line of the order `order_id`.
pub open spec fn held_by_ticket_line(items: Seq<OrderItem>, t: TicketInstance, order_id: Id) -> bool {
    &&& t.status == TicketInstanceStatus::Reserved
    &&& t.order_item_id is Some
    &&& index_of(items, t.order_item_id->0) is Some
    &&& items[index_of(items, t.order_item_id->0)->0].order_id == order_id
    &&& items[index_of(items, t.order_item_id->0)->0].item_type == OrderItemTypes::Tickets
}

/// The instances after every one held by a ticket line of the order was
/// bought for `owner_id`.
pub open spec fn purchase_order(
    ts: Seq<TicketInstance>,
    items: Seq<OrderItem>,
    order_id: Id,
    owner_id: Id,
) -> Seq<TicketInstance> {
    Seq::new(
        ts.len(),
        |i: int|
            if held_by_ticket_line(items, ts[i], order_id) {
                TicketInstance {
                    status: TicketInstanceStatus::Purchased,
                    owner_id: Some(owner_id),
                    ..ts[i]
                }
            } else {
                ts[i]
            },
    )
}

/// Whether `t` belongs to a line of the order `order_id`.
pub open spec fn in_order(items: Seq<OrderItem>, t: TicketInstance, order_id: Id) -> bool {
    &&& t.order_item_id is Some
    &&& index_of(items, t.order_item_id->0) is Some
    &&& items[index_of(items, t.order_item_id->0)->0].order_id == order_id
}

/// For each of the first `k` instances that belongs to the order, the row
/// that names it for the event `domain_event_id`.
pub open spec fn event_tickets_upto(
    ts: Seq<TicketInstance>,
    items: Seq<OrderItem>,
    order_id: Id,
    domain_event_id: Id,
    k: int,
) -> Seq<DomainEventTicket>
    decreases k,
{
    if k <= 0 {
        Seq::empty()
    } else {
        let rest = event_tickets_upto(ts, items, order_id, domain_event_id, k - 1);
        if in_order(items, ts[k - 1], order_id) {
            rest.push(DomainEventTicket { domain_event_id, ticket_instance_id: ts[k - 1].id })
        } else {
            rest
        }
    }
}

/// The user to whom the tickets of the order go.
pub open spec fn ticket_owner(order: Order) -> Id {
    match order.on_behalf_of_user_id {
        Some(id) => id,
        None => order.user_id,
    }
}

/// The completion of an order that is paid in full: it becomes `Paid`, the
/// instances that its ticket lines hold are bought, the log tells of it and
/// names every ticket of the order, and a message to the buyer is scheduled.
pub open spec fn spec_complete(
    s: StoreState,
    order: Order,
    current_user_id: Option<Id>,
    now: Timestamp,
) -> Outcome {
    match spec_update_status(s, order, current_user_id, OrderStatus::Paid, now) {
        Err(e) => Err(e),
        Ok((s1, o1)) => {
            let ts = purchase_order(s1.ticket_instances, s1.order_items, o1.id, ticket_owner(o1));
            match spec_record_event(
                StoreState { ticket_instances: ts, ..s1 },
                DomainEventTypes::OrderCompleted,
                Tables::Orders,
                Some(o1.id),
                current_user_id,
                EventData::OrderCompleted,
                now,
            ) {
                Err(e) => Err(e),
                Ok((s2, event)) => match spec_schedule_action(
                    StoreState {
                        domain_event_tickets: s2.domain_event_tickets + event_tickets_upto(
                            ts,
                            s2.order_items,
                            o1.id,
                            event.id,
                            ts.len() as int,
                        ),
                        ..s2
                    },
                    Some(event.id),
                    DomainActionTypes::SendPurchaseCompletedCommunication,
                    Tables::Orders,
                    o1.id,
                    current_user_id,
                    PURCHASE_COMMUNICATION_DAYS,
                    now,
                ) {
                    Err(e) => Err(e),
                    Ok(s3) => Ok((s3, o1)),
                },
            }
        },
    }
}

/// The check for completion: an order that is neither paid nor cancelled is
/// completed where the completed payments reach its total.
pub open spec fn spec_complete_if_fully_paid(
    s: StoreState,
    order: Order,
    current_user_id: Option<Id>,
    now: Timestamp,
) -> Outcome {
    if order.status == OrderStatus::Paid || order.status == OrderStatus::Cancelled {
        Ok((s, order))
    } else {
        match spec_total_paid(s, order.id) {
            Err(e) => Err(e),
            Ok(paid) => match spec_calculate_total(s, order.id) {
                Err(e) => Err(e),
                Ok(total) => if paid >= total {
                    spec_complete(s, order, current_user_id, now)
                } else {
                    Ok((s, order))
                },
            },
        }
    }
}

/// The first code, from the `k`th line on, that is not valid at `now`, as
/// the error that names it; or the error for a code that does not exist.
pub open spec fn codes_valid_from(c: CatalogState, lines: Seq<OrderItem>, now: Timestamp, k: int) -> Result<
    (),
    DatabaseError,
>
    decreases lines.len() - k,
{
    if k < 0 || k >= lines.len() {
        Ok(())
    } else {
        match lines[k].code_id {
            None => codes_valid_from(c, lines, now, k + 1),
            Some(code_id) => match index_of(c.codes, code_id) {
                None => Err(DatabaseError::NotFound { table: Tables::Codes, id: code_id }),
                Some(i) => if code_valid(c.codes[i], now) {
                    codes_valid_from(c, lines, now, k + 1)
                } else {
                    Err(
                        DatabaseError::CodeNotValid {
                            code_id: c.codes[i].id,
                            start_date: c.codes[i].start_date,
                            end_date: c.codes[i].end_date,
                        },
                    )
                },
            },
        }
    }
}

/// The payment as a row with the identifier `id`, written at `now`.
pub open spec fn payment_row(payment: NewPayment, id: Id, now: Timestamp) -> Payment {
    Payment {
        id,
        order_id: payment.order_id,
        created_by: payment.created_by,
        status: payment.status,
        payment_method: payment.payment_method,
        provider: payment.provider,
        external_reference: payment.external_reference,
        amount: payment.amount,
        raw_data: payment.raw_data,
        url_nonce: payment.url_nonce,
        created_at: now,
    }
}

/// The state after the payment was written and the log told of it; and the row.
pub open spec fn spec_commit_payment(
    s: StoreState,
    payment: NewPayment,
    current_user_id: Option<Id>,
    now: Timestamp,
) -> Result<(StoreState, Payment), DatabaseError> {
    match take_id(s) {
        None => Err(DatabaseError::IdentifiersExhausted),
        Some((s1, id)) => {
            let row = payment_row(payment, id, now);
            match spec_record_event(
                StoreState { payments: s1.payments.push(row), ..s1 },
                DomainEventTypes::PaymentCreated,
                Tables::Payments,
                Some(id),
                current_user_id,
                EventData::PaymentRecorded { payment_id: id, amount: row.amount, status: row.status },
                now,
            ) {
                Err(e) => Err(e),
                Ok((s2, _)) => Ok((s2, row)),
            }
        },
    }
}

/// The index of the first user at or after `from` whose cart is `order_id`.
pub open spec fn cart_user_from(users: Seq<User>, order_id: Id, from: int) -> Option<int>
    decreases users.len() - from,
{
    if from < 0 || from >= users.len() {
        None
    } else if users[from].last_cart_id == Some(order_id) {
        Some(from)
    } else {
        cart_user_from(users, order_id, from + 1)
    }
}

/// The user table after the first user whose cart is `order_id` lost the
/// pointer to it.
pub open spec fn spec_clear_user_cart(users: Seq<User>, order_id: Id, now: Timestamp) -> Seq<User> {
    match cart_user_from(users, order_id, 0) {
        None => users,
        Some(i) => users.update(i, User { last_cart_id: None, updated_at: now, ..users[i] }),
    }
}

/// What a payment does and gives back.
pub type PaymentOutcome = Result<(StoreState, Order, Payment), DatabaseError>;

/// The recording of a payment: the codes of the order must still be valid;
/// the payment is written; unless it is only requested, the user's cart
/// pointer is cleared; and the order is completed where it is paid in full.
pub open spec fn spec_add_payment(
    c: CatalogState,
    s: StoreState,
    order: Order,
    payment: NewPayment,
    current_user_id: Option<Id>,
    now: Timestamp,
) -> PaymentOutcome {
    match codes_valid_from(c, items_of(s.order_items, order.id), now, 0) {
        Err(e) => Err(e),
        Ok(()) => match spec_commit_payment(s, payment, current_user_id, now) {
            Err(e) => Err(e),
            Ok((s1, row)) => {
                let s2 = if row.status != PaymentStatus::Requested {
                    StoreState { users: spec_clear_user_cart(s1.users, order.id, now), ..s1 }
                } else {
                    s1
                };
                match spec_complete_if_fully_paid(s2, order, current_user_id, now) {
                    Err(e) => Err(e),
                    Ok((s3, o3)) => Ok((s3, o3, row)),
                }
            },
        },
    }
}

fn is_held_by_ticket_line(store: &Store, k: usize, order_id: Id) -> (yes: bool)
    requires
        k < store.ticket_instances.len(),
    ensures
        yes == held_by_ticket_line(store@.order_items, store@.ticket_instances[k as int], order_id),
{
    let t = &store.ticket_instances[k];
    if t.status != TicketInstanceStatus::Reserved {
        return false;
    }
    match t.order_item_id {
        None => false,
        Some(item_id) => match find_index(&store.order_items, item_id) {
            None => false,
            Some(i) => store.order_items[i].order_id == order_id && store.order_items[i].item_type
                == OrderItemTypes::Tickets,
        },
    }
}

fn is_in_order(store: &Store, k: usize, order_id: Id) -> (yes: bool)
    requires
        k < store.ticket_instances.len(),
    ensures
        yes == in_order(store@.order_items, store@.ticket_instances[k as int], order_id),
{
    match store.ticket_instances[k].order_item_id {
        None => false,
        Some(item_id) => match find_index(&store.order_items, item_id) {
            None => false,
            Some(i) => store.order_items[i].order_id == order_id,
        },
    }
}

pub(crate) fn clear_user_cart(order_id: Id, store: &mut Store, now: Timestamp)
    ensures
        final(store)@ == (StoreState {
            users: spec_clear_user_cart(old(store)@.users, order_id, now),
            ..old(store)@
        }),
{
    let mut k: usize = 0;
    while k < store.users.len()
        invariant
            k <= store.users.len(),
            store@ == old(store)@,
            cart_user_from(store@.users, order_id, k as int) == cart_user_from(
                store@.users,
                order_id,
                0,
            ),
        decreases store.users.len() - k,
    {
        let points_here = match store.users[k].last_cart_id {
            Some(id) => id == order_id,
            None => false,
        };
        if points_here {
            store.users[k].last_cart_id = None;
            store.users[k].updated_at = now;
            assert(store@.users =~= spec_clear_user_cart(old(store)@.users, order_id, now));
            return ;
        }
        k += 1;
    }
}

impl NewPayment {
    /// Writes the payment to the store and tells the log. Where it fails,
    /// the store may hold the payment without the entry.
    pub(crate) fn try_commit(self, current_user_id: Option<Id>, store: &mut Store, now: Timestamp) -> (res:
        Result<Payment, DatabaseError>)
        ensures
            match spec_commit_payment(old(store)@, self, current_user_id, now) {
                Ok((s, row)) => res == Ok::<Payment, DatabaseError>(row) && final(store)@ == s,
                Err(e) => res == Err::<Payment, DatabaseError>(e),
            },
    {
        let id = store.allocate_id()?;
        let row = Payment {
            id,
            order_id: self.order_id,
            created_by: self.created_by,
            status: self.status,
            payment_method: self.payment_method,
            provider: self.provider,
            external_reference: self.external_reference,
            amount: self.amount,
            raw_data: self.raw_data,
            url_nonce: self.url_nonce,
            created_at: now,
        };
        store.payments.push(row.clone());
        DomainEvent::create(
            DomainEventTypes::PaymentCreated,
            Tables::Payments,
            Some(id),
            current_user_id,
            EventData::PaymentRecorded { payment_id: id, amount: row.amount, status: row.status },
            store,
            now,
        )?;
        Ok(row)
    }
}

impl Payment {
    /// A payment for `order_id`, not yet recorded.
    pub fn create(
        order_id: Id,
        created_by: Option<Id>,
        status: PaymentStatus,
        payment_method: PaymentMethods,
        provider: PaymentProviders,
        external_reference: Option<String>,
        amount: i64,
        raw_data: Option<String>,
        url_nonce: Option<String>,
    ) -> (payment: NewPayment)
        ensures
            payment == (NewPayment {
                order_id,
                created_by,
                status,
                payment_method,
                provider,
                external_reference,
                amount,
                raw_data,
                url_nonce,
            }),
    {
        NewPayment {
            order_id,
            created_by,
            status,
            payment_method,
            provider,
            external_reference,
            amount,
            raw_data,
            url_nonce,
        }
    }
}

impl Order {
    /// The total of the order: for each line its unit price times the units
    /// that were not refunded. Fails where the sum leaves 64 bits.
    pub fn calculate_total(&self, store: &Store) -> (res: Result<i64, DatabaseError>)
        ensures
            res == spec_calculate_total(store@, self.id),
    {
        let lines = self.items(store);
        let mut total: i64 = 0;
        let mut k: usize = 0;
        while k < lines.len()
            invariant
                k <= lines.len(),
                lines@ == items_of(store@.order_items, self.id),
                sum_lines_from(lines@, k as int, total as int) == sum_lines_from(lines@, 0, 0),
            decreases lines.len() - k,
        {
            let line = lines[k];
            let units = match line.quantity.checked_sub(line.refunded_quantity) {
                Some(units) => units,
                None => {
                    return Err(DatabaseError::ArithmeticOverflow);
                },
            };
            let amount = match line.unit_price_in_cents.checked_mul(units) {
                Some(amount) => amount,
                None => {
                    return Err(DatabaseError::ArithmeticOverflow);
                },
            };
            total = match total.checked_add(amount) {
                Some(total) => total,
                None => {
                    return Err(DatabaseError::ArithmeticOverflow);
                },
            };
            k += 1;
        }
        Ok(total)
    }

    /// What has been paid for the order: the sum of its completed payments.
    /// Fails where the sum leaves 64 bits.
    pub fn total_paid(&self, store: &Store) -> (res: Result<i64, DatabaseError>)
        ensures
            res == spec_total_paid(store@, self.id),
    {
        let mut total: i64 = 0;
        let mut k: usize = 0;
        while k < store.payments.len()
            invariant
                k <= store.payments.len(),
                sum_paid_from(store@.payments, self.id, k as int, total as int) == sum_paid_from(
                    store@.payments,
                    self.id,
                    0,
                    0,
                ),
            decreases store.payments.len() - k,
        {
            let p = &store.payments[k];
            if p.order_id == self.id && p.status == PaymentStatus::Completed {
                total = match total.checked_add(p.amount) {
                    Some(total) => total,
                    None => {
                        return Err(DatabaseError::ArithmeticOverflow);
                    },
                };
            }
            k += 1;
        }
        Ok(total)
    }

    /// The payments of the order, in table order.
    pub fn payments(&self, store: &Store) -> (found: Vec<Payment>)
        ensures
            found@ == payments_of_upto(store@.payments, self.id, store@.payments.len() as int),
    {
        let mut found: Vec<Payment> = Vec::new();
        let mut k: usize = 0;
        while k < store.payments.len()
            invariant
                k <= store.payments.len(),
                found@ == payments_of_upto(store@.payments, self.id, k as int),
            decreases store.payments.len() - k,
        {
            if store.payments[k].order_id == self.id {
                found.push(store.payments[k].clone());
            }
            k += 1;
        }
        found
    }

    fn try_complete(&mut self, current_user_id: Option<Id>, store: &mut Store, now: Timestamp) -> (res:
        Result<(), DatabaseError>)
        ensures
            match spec_complete(old(store)@, *old(self), current_user_id, now) {
                Ok((s, o)) => res is Ok && final(store)@ == s && *final(self) == o,
                Err(e) => res == Err::<(), DatabaseError>(e),
            },
    {
        self.update_status(current_user_id, OrderStatus::Paid, store, now)?;
        let owner = match self.on_behalf_of_user_id {
            Some(id) => id,
            None => self.user_id,
        };
        let ghost s1 = store@;
        let ghost goal = purchase_order(s1.ticket_instances, s1.order_items, self.id, owner);
        let mut k: usize = 0;
        while k < store.ticket_instances.len()
            invariant
                k <= store.ticket_instances.len(),
                store.ticket_instances.len() == s1.ticket_instances.len(),
                forall|j: int| 0 <= j < k ==> store.ticket_instances[j] == goal[j],
                forall|j: int|
                    k <= j < s1.ticket_instances.len() ==> store.ticket_instances[j]
                        == s1.ticket_instances[j],
                store@ == (StoreState { ticket_instances: store@.ticket_instances, ..s1 }),
                goal == purchase_order(s1.ticket_instances, s1.order_items, self.id, owner),
            decreases store.ticket_instances.len() - k,
        {
            if is_held_by_ticket_line(store, k, self.id) {
                store.ticket_instances[k].status = TicketInstanceStatus::Purchased;
                store.ticket_instances[k].owner_id = Some(owner);
            }
            k += 1;
        }
        assert(store@.ticket_instances =~= goal);
        let event = DomainEvent::create(
            DomainEventTypes::OrderCompleted,
            Tables::Orders,
            Some(self.id),
            current_user_id,
            EventData::OrderCompleted,
            store,
            now,
        )?;
        let ghost s2 = store@;
        let mut k: usize = 0;
        while k < store.ticket_instances.len()
            invariant
                k <= store.ticket_instances.len(),
                store@ == (StoreState {
                    domain_event_tickets: s2.domain_event_tickets + event_tickets_upto(
                        s2.ticket_instances,
                        s2.order_items,
                        self.id,
                        event.id,
                        k as int,
                    ),
                    ..s2
                }),
            decreases store.ticket_instances.len() - k,
        {
            if is_in_order(store, k, self.id) {
                store.domain_event_tickets.push(
                    DomainEventTicket {
                        domain_event_id: event.id,
                        ticket_instance_id: store.ticket_instances[k].id,
                    },
                );
                assert(store@.domain_event_tickets =~= s2.domain_event_tickets + event_tickets_upto(
                    s2.ticket_instances,
                    s2.order_items,
                    self.id,
                    event.id,
                    k as int + 1,
                ));
            }
            k += 1;
        }
        DomainAction::create(
            Some(event.id),
            DomainActionTypes::SendPurchaseCompletedCommunication,
            Tables::Orders,
            self.id,
            current_user_id,
            PURCHASE_COMMUNICATION_DAYS,
            store,
            now,
        )
    }

    pub(crate) fn try_complete_if_fully_paid(
        &mut self,
        current_user_id: Option<Id>,
        store: &mut Store,
        now: Timestamp,
    ) -> (res: Result<(), DatabaseError>)
        ensures
            match spec_complete_if_fully_paid(old(store)@, *old(self), current_user_id, now) {
                Ok((s, o)) => res is Ok && final(store)@ == s && *final(self) == o,
                Err(e) => res == Err::<(), DatabaseError>(e),
            },
    {
        if self.status == OrderStatus::Paid || self.status == OrderStatus::Cancelled {
            return Ok(());
        }
        let paid = self.total_paid(store)?;
        let total = self.calculate_total(store)?;
        if paid >= total {
            self.try_complete(current_user_id, store, now)
        } else {
            Ok(())
        }
    }

    /// Completes the order where its completed payments reach its total: it
    /// becomes `Paid`, its tickets are bought, the log tells of it and a
    /// message to the buyer is scheduled. A paid or cancelled order, and one
    /// that is short, stays as it is. Where it fails, nothing changes.
    pub fn complete_if_fully_paid(
        &mut self,
        current_user_id: Option<Id>,
        store: &mut Store,
        now: Timestamp,
    ) -> (res: Result<(), DatabaseError>)
        ensures
            match spec_complete_if_fully_paid(old(store)@, *old(self), current_user_id, now) {
                Ok((s, o)) => res is Ok && final(store)@ == s && *final(self) == o,
                Err(e) => res == Err::<(), DatabaseError>(e) && final(store)@ == old(store)@
                    && *final(self) == *old(self),
            },
    {
        let saved = store.snapshot();
        let before = self.clone();
        let res = self.try_complete_if_fully_paid(current_user_id, store, now);
        if res.is_err() {
            *store = saved;
            *self = before;
        }
        res
    }

    /// Fails where a line of the order names a code that is not valid at
    /// `now`, or that does not exist.
    pub fn confirm_codes_valid(&self, catalog: &Catalog, store: &Store, now: Timestamp) -> (res: Result<
        (),
        DatabaseError,
    >)
        ensures
            res == codes_valid_from(catalog@, items_of(store@.order_items, self.id), now, 0),
    {
        let lines = self.items(store);
        let mut k: usize = 0;
        while k < lines.len()
            invariant
                k <= lines.len(),
                lines@ == items_of(store@.order_items, self.id),
                codes_valid_from(catalog@, lines@, now, k as int) == codes_valid_from(
                    catalog@,
                    lines@,
                    now,
                    0,
                ),
            decreases lines.len() - k,
        {
            match lines[k].code_id {
                None => {},
                Some(code_id) => match find_index(&catalog.codes, code_id) {
                    None => {
                        return Err(DatabaseError::NotFound { table: Tables::Codes, id: code_id });
                    },
                    Some(i) => {
                        catalog.codes[i].confirm_code_valid(now)?;
                    },
                },
            }
            k += 1;
        }
        Ok(())
    }

    fn try_add_payment(
        &mut self,
        payment: NewPayment,
        current_user_id: Option<Id>,
        catalog: &Catalog,
        store: &mut Store,
        now: Timestamp,
    ) -> (res: Result<Payment, DatabaseError>)
        ensures
            match spec_add_payment(catalog@, old(store)@, *old(self), payment, current_user_id, now) {
                Ok((s, o, row)) => res == Ok::<Payment, DatabaseError>(row) && final(store)@ == s
                    && *final(self) == o,
                Err(e) => res == Err::<Payment, DatabaseError>(e),
            },
    {
        self.confirm_codes_valid(catalog, store, now)?;
        let row = payment.try_commit(current_user_id, store, now)?;
        if row.status != PaymentStatus::Requested {
            clear_user_cart(self.id, store, now);
        }
        self.try_complete_if_fully_paid(current_user_id, store, now)?;
        Ok(row)
    }

    /// Records a payment against the order. The codes of the order must
    /// still be valid. Unless the payment is only requested, the user's
    /// cart pointer is cleared. Where the completed payments then reach the
    /// total, the order is completed. Where it fails, nothing changes.
    pub fn add_payment(
        &mut self,
        payment: NewPayment,
        current_user_id: Option<Id>,
        catalog: &Catalog,
        store: &mut Store,
        now: Timestamp,
    ) -> (res: Result<Payment, DatabaseError>)
        ensures
            match spec_add_payment(catalog@, old(store)@, *old(self), payment, current_user_id, now) {
                Ok((s, o, row)) => res == Ok::<Payment, DatabaseError>(row) && final(store)@ == s
                    && *final(self) == o,
                Err(e) => res == Err::<Payment, DatabaseError>(e) && final(store)@ == old(store)@
                    && *final(self) == *old(self),
            },
    {
        let saved = store.snapshot();
        let before = self.clone();
        let res = self.try_add_payment(payment, current_user_id, catalog, store, now);
        if res.is_err() {
            *store = saved;
            *self = before;
        }
        res
    }
}

/// The words under which a free checkout is recorded.
pub const FREE_CHECKOUT: &'static str = "Free Checkout";

/// Whether `payment` is the payment that a free checkout records for the
/// order: nothing, completed, under the words for a free checkout.
pub open spec fn is_free_payment(
    payment: NewPayment,
    order_id: Id,
    external_payment: bool,
    current_user_id: Id,
) -> bool {
    &&& payment.order_id == order_id
    &&& payment.created_by == Some(current_user_id)
    &&& payment.status == PaymentStatus::Completed
    &&& payment.payment_method == PaymentMethods::Free
    &&& payment.provider == if external_payment {
        PaymentProviders::External
    } else {
        PaymentProviders::Free
    }
    &&& payment.external_reference is Some
    &&& payment.external_reference->0@ == FREE_CHECKOUT@
    &&& payment.amount == 0
    &&& payment.raw_data is None
    &&& payment.url_nonce is None
}

/// A payment made outside the system, after its kind was recorded on the order.
pub open spec fn spec_add_external_payment(
    c: CatalogState,
    s: StoreState,
    order: Order,
    external_reference: Option<String>,
    external_payment_type: ExternalPaymentType,
    current_user_id: Id,
    amount: i64,
    now: Timestamp,
) -> PaymentOutcome {
    match spec_set_external_payment_type(s, order, external_payment_type, current_user_id, now) {
        Err(e) => Err(e),
        Ok((s1, o1)) => spec_add_payment(
            c,
            s1,
            o1,
            NewPayment {
                order_id: order.id,
                created_by: Some(current_user_id),
                status: PaymentStatus::Completed,
                payment_method: PaymentMethods::External,
                provider: PaymentProviders::External,
                external_reference,
                amount,
                raw_data: None,
                url_nonce: None,
            },
            Some(current_user_id),
            now,
        ),
    }
}

impl Order {
    /// Records the payment of a checkout that costs nothing. Where it fails,
    /// nothing changes.
    pub fn add_free_payment(
        &mut self,
        external_payment: bool,
        current_user_id: Id,
        catalog: &Catalog,
        store: &mut Store,
        now: Timestamp,
    ) -> (res: Result<Payment, DatabaseError>)
        ensures
            exists|payment: NewPayment|
                is_free_payment(payment, old(self).id, external_payment, current_user_id)
                    && match #[trigger] spec_add_payment(
                    catalog@,
                    old(store)@,
                    *old(self),
                    payment,
                    Some(current_user_id),
                    now,
                ) {
                    Ok((s, o, row)) => res == Ok::<Payment, DatabaseError>(row)
                        && final(store)@ == s && *final(self) == o,
                    Err(e) => res == Err::<Payment, DatabaseError>(e)
                        && final(store)@ == old(store)@ && *final(self) == *old(self),
                },
    {
        let payment = Payment::create(
            self.id,
            Some(current_user_id),
            PaymentStatus::Completed,
            PaymentMethods::Free,
            if external_payment {
                PaymentProviders::External
            } else {
                PaymentProviders::Free
            },
            Some(String::from_str(FREE_CHECKOUT)),
            0,
            None,
            None,
        );
        let ghost witness = payment;
        let res = self.add_payment(payment, Some(current_user_id), catalog, store, now);
        assert(is_free_payment(witness, old(self).id, external_payment, current_user_id));
        res
    }

    /// Records a payment made outside the system, of the kind
    /// `external_payment_type`, on a draft order. Where it fails, nothing
    /// changes.
    pub fn add_external_payment(
        &mut self,
        external_reference: Option<String>,
        external_payment_type: ExternalPaymentType,
        current_user_id: Id,
        amount: i64,
        catalog: &Catalog,
        store: &mut Store,
        now: Timestamp,
    ) -> (res: Result<Payment, DatabaseError>)
        ensures
            match spec_add_external_payment(
                catalog@,
                old(store)@,
                *old(self),
                external_reference,
                external_payment_type,
                current_user_id,
                amount,
                now,
            ) {
                Ok((s, o, row)) => res == Ok::<Payment, DatabaseError>(row) && final(store)@ == s
                    && *final(self) == o,
                Err(e) => res == Err::<Payment, DatabaseError>(e) && final(store)@ == old(store)@
                    && *final(self) == *old(self),
            },
    {
        let saved = store.snapshot();
        let before = self.clone();
        let order_id = self.id;
        let res = match self.try_set_external_payment_type(
            external_payment_type,
            current_user_id,
            store,
            now,
        ) {
            Err(e) => Err(e),
            Ok(()) => {
                let payment = Payment::create(
                    order_id,
                    Some(current_user_id),
                    PaymentStatus::Completed,
                    PaymentMethods::External,
                    PaymentProviders::External,
                    external_reference,
                    amount,
                    None,
                    None,
                );
                self.try_add_payment(payment, Some(current_user_id), catalog, store, now)
            },
        };
        if res.is_err() {
            *store = saved;
            *self = before;
        }
        res
    }

    /// Records what a payment provider reported. Where it fails, nothing
    /// changes.
    pub fn add_provider_payment(
        &mut self,
        external_reference: Option<String>,
        provider: PaymentProviders,
        current_user_id: Option<Id>,
        amount: i64,
        status: PaymentStatus,
        url_nonce: Option<String>,
        data: String,
        catalog: &Catalog,
        store: &mut Store,
        now: Timestamp,
    ) -> (res: Result<Payment, DatabaseError>)
        ensures
            match spec_add_payment(
                catalog@,
                old(store)@,
                *old(self),
                NewPayment {
                    order_id: old(self).id,
                    created_by: current_user_id,
                    status,
                    payment_method: PaymentMethods::Provider,
                    provider,
                    external_reference,
                    amount,
                    raw_data: Some(data),
                    url_nonce,
                },
                current_user_id,
                now,
            ) {
                Ok((s, o, row)) => res == Ok::<Payment, DatabaseError>(row) && final(store)@ == s
                    && *final(self) == o,
                Err(e) => res == Err::<Payment, DatabaseError>(e) && final(store)@ == old(store)@
                    && *final(self) == *old(self),
            },
    {
        let payment = Payment::create(
            self.id,
            current_user_id,
            status,
            PaymentMethods::Provider,
            provider,
            external_reference,
            amount,
            Some(data),
            url_nonce,
        );
        self.add_payment(payment, current_user_id, catalog, store, now)
    }

    /// Records a payment by card. Where it fails, nothing changes.
    pub fn add_credit_card_payment(
        &mut self,
        current_user_id: Id,
        amount: i64,
        provider: PaymentProviders,
        external_reference: String,
        status: PaymentStatus,
        provider_data: String,
        catalog: &Catalog,
        store: &mut Store,
        now: Timestamp,
    ) -> (res: Result<Payment, DatabaseError>)
        ensures
            match spec_add_payment(
                catalog@,
                old(store)@,
                *old(self),
                NewPayment {
                    order_id: old(self).id,
                    created_by: Some(current_user_id),
                    status,
                    payment_method: PaymentMethods::CreditCard,
                    provider,
                    external_reference: Some(external_reference),
                    amount,
                    raw_data: Some(provider_data),
                    url_nonce: None,
                },
                Some(current_user_id),
                now,
            ) {
                Ok((s, o, row)) => res == Ok::<Payment, DatabaseError>(row) && final(store)@ == s
                    && *final(self) == o,
                Err(e) => res == Err::<Payment, DatabaseError>(e) && final(store)@ == old(store)@
                    && *final(self) == *old(self),
            },
    {
        let payment = Payment::create(
            self.id,
            Some(current_user_id),
            status,
            PaymentMethods::CreditCard,
            provider,
            Some(external_reference),
            amount,
            Some(provider_data),
            None,
        );
        self.add_payment(payment, Some(current_user_id), catalog, store, now)
    }
}

} // verus!
