#![allow(dead_code)]
#![allow(unused_imports)]

use ticketing_core::errors::{DatabaseError, ErrorCode};
use ticketing_core::model::{
    Code, DomainAction, DomainEvent, DomainEventTicket, Event, EventData, FeeScheduleRange, Hold,
    NewPayment, Order, OrderItem, Payment, RedeemKey, RefundItem, RefundedTicket, TicketInstance,
    TicketPricing, TicketType, UpdateOrderItem, User,
};
use ticketing_core::store::{Catalog, Store};
use ticketing_core::types::{
    CartItemStatus, CodeTypes, DomainActionStatus, DomainActionTypes, DomainEventTypes, ExternalPaymentType,
    HoldTypes, OrderItemTypes, OrderStatus, OrderTypes, PaymentMethods, PaymentProviders,
    PaymentStatus, RedeemResults, Tables, TicketInstanceStatus, TicketPricingStatus,
};
use ticketing_core::redemption::Redemption;

const NOW: i64 = 1_000_000_000_000;
const QUARTER_HOUR: i64 = 15 * 60 * 1_000_000;
const EVENT: u128 = 100;
const OTHER_EVENT: u128 = 101;
const TYPE_A: u128 = 10;
const TYPE_B: u128 = 11;
const TYPE_C: u128 = 12;
const PRICING_A: u128 = 20;
const PRICING_B: u128 = 21;
const PRICING_C: u128 = 22;
const SCHEDULE: u128 = 900;
const HOLD_DISCOUNT: u128 = 40;
const HOLD_COMP: u128 = 41;
const HOLD_ENDED: u128 = 42;
const CODE_ACCESS: u128 = 50;
const CODE_CENTS: u128 = 51;
const CODE_PERCENT: u128 = 52;
const CODE_EXPIRED: u128 = 53;
const ALICE: u128 = 1;
const BOB: u128 = 2;

fn ticket(id: u128, ticket_type_id: u128, hold_id: Option<u128>) -> TicketInstance {
    TicketInstance {
        id,
        ticket_type_id,
        hold_id,
        order_item_id: None,
        owner_id: None,
        reserved_until: None,
        status: TicketInstanceStatus::Available,
        transferred: false,
    }
}

fn pricing(id: u128, ticket_type_id: u128, price_in_cents: i64, box_office: bool) -> TicketPricing {
    TicketPricing {
        id,
        ticket_type_id,
        price_in_cents,
        start_date: 0,
        end_date: NOW * 2,
        is_box_office_only: box_office,
        status: TicketPricingStatus::Published,
    }
}

fn code(id: u128, text: &str, code_type: CodeTypes, cents: Option<i64>, percent: Option<i64>, end: i64) -> Code {
    Code {
        id,
        event_id: EVENT,
        code_type,
        redemption_code: text.to_string(),
        max_uses: 100,
        discount_in_cents: cents,
        discount_as_percentage: percent,
        start_date: 0,
        end_date: end,
        max_tickets_per_user: None,
    }
}

fn hold(id: u128, text: &str, hold_type: HoldTypes, cents: Option<i64>, max_per_user: Option<i64>, end_at: Option<i64>) -> Hold {
    Hold {
        id,
        event_id: EVENT,
        ticket_type_id: TYPE_A,
        redemption_code: text.to_string(),
        hold_type,
        discount_in_cents: cents,
        max_per_user,
        end_at,
    }
}

fn catalog() -> Catalog {
    let mut c = Catalog::new();
    c.events.push(Event { id: EVENT, fee_schedule_id: Some(SCHEDULE), fee_in_cents: 50, company_fee_in_cents: 20, client_fee_in_cents: 30 });
    c.events.push(Event { id: OTHER_EVENT, fee_schedule_id: None, fee_in_cents: 0, company_fee_in_cents: 0, client_fee_in_cents: 0 });
    c.ticket_types.push(TicketType { id: TYPE_A, event_id: EVENT, limit_per_person: 0 });
    c.ticket_types.push(TicketType { id: TYPE_B, event_id: EVENT, limit_per_person: 2 });
    c.ticket_types.push(TicketType { id: TYPE_C, event_id: OTHER_EVENT, limit_per_person: 0 });
    c.ticket_pricing.push(pricing(PRICING_A, TYPE_A, 1000, false));
    c.ticket_pricing.push(pricing(PRICING_B, TYPE_B, 2000, false));
    c.ticket_pricing.push(pricing(PRICING_C, TYPE_C, 500, false));
    c.fee_schedule_ranges.push(FeeScheduleRange { id: 30, fee_schedule_id: SCHEDULE, min_price_in_cents: 0, fee_in_cents: 100, company_fee_in_cents: 40, client_fee_in_cents: 60 });
    c.fee_schedule_ranges.push(FeeScheduleRange { id: 31, fee_schedule_id: SCHEDULE, min_price_in_cents: 1500, fee_in_cents: 150, company_fee_in_cents: 60, client_fee_in_cents: 90 });
    c.holds.push(hold(HOLD_DISCOUNT, "HOLD10", HoldTypes::Discount, Some(300), Some(2), None));
    c.holds.push(hold(HOLD_COMP, "COMPED", HoldTypes::Comp, None, None, None));
    c.holds.push(hold(HOLD_ENDED, "ENDED", HoldTypes::Discount, Some(1), None, Some(NOW - 1)));
    c.codes.push(code(CODE_ACCESS, "ACCESS", CodeTypes::Access, Some(200), None, NOW * 2));
    c.codes.push(code(CODE_CENTS, "TENOFF", CodeTypes::Discount, Some(100), None, NOW * 2));
    c.codes.push(code(CODE_PERCENT, "HALF", CodeTypes::Discount, None, Some(50), NOW * 2));
    c.codes.push(code(CODE_EXPIRED, "EXPIRED", CodeTypes::Access, Some(1), None, NOW - 1));
    c
}

fn store() -> Store {
    let mut s = Store::new(5000);
    s.users.push(User { id: ALICE, last_cart_id: None, updated_at: 7 });
    s.users.push(User { id: BOB, last_cart_id: None, updated_at: 7 });
    for i in 0..5 {
        s.ticket_instances.push(ticket(1000 + i, TYPE_A, None));
    }
    for i in 0..3 {
        s.ticket_instances.push(ticket(1100 + i, TYPE_B, None));
    }
    s.ticket_instances.push(ticket(1200, TYPE_C, None));
    s.ticket_instances.push(ticket(1300, TYPE_A, Some(HOLD_DISCOUNT)));
    s.ticket_instances.push(ticket(1301, TYPE_A, Some(HOLD_DISCOUNT)));
    s.ticket_instances.push(ticket(1302, TYPE_A, Some(HOLD_DISCOUNT)));
    s.ticket_instances.push(ticket(1400, TYPE_A, Some(HOLD_COMP)));
    s
}

fn cart_for(user_id: u128, s: &mut Store) -> Order {
    let user = *s.users.iter().find(|u| u.id == user_id).unwrap();
    Order::find_or_create_cart(&user, s, NOW).unwrap()
}

fn wish(ticket_type_id: u128, quantity: u32, text: Option<&str>) -> UpdateOrderItem {
    UpdateOrderItem { ticket_type_id, quantity, redemption_code: text.map(|t| t.to_string()) }
}

fn lines_of(s: &Store, order: &Order, item_type: OrderItemTypes) -> Vec<OrderItem> {
    s.order_items.iter().filter(|i| i.order_id == order.id && i.item_type == item_type).cloned().collect()
}

fn held_by(s: &Store, item: &OrderItem, status: TicketInstanceStatus) -> usize {
    s.ticket_instances.iter().filter(|t| t.order_item_id == Some(item.id) && t.status == status).count()
}

fn with_status(s: &Store, ticket_type_id: u128, status: TicketInstanceStatus) -> usize {
    s.ticket_instances.iter().filter(|t| t.ticket_type_id == ticket_type_id && t.hold_id.is_none() && t.status == status).count()
}

fn paid_order(c: &Catalog, s: &mut Store, user_id: u128, wishes: &[UpdateOrderItem]) -> Order {
    let mut order = cart_for(user_id, s);
    order.update_quantities(user_id, wishes, false, false, c, s, NOW).unwrap();
    let total = order.calculate_total(s).unwrap();
    order
        .add_external_payment(Some("till".to_string()), ExternalPaymentType::Cash, user_id, total, c, s, NOW)
        .unwrap();
    assert_eq!(order.status, OrderStatus::Paid);
    order
}

fn fee_shape(i: &OrderItem) -> (OrderItemTypes, Option<u128>, i64, i64, Option<u128>, Option<u128>, i64, i64) {
    (i.item_type, i.event_id, i.quantity, i.unit_price_in_cents, i.parent_id, i.fee_schedule_range_id, i.company_fee_in_cents, i.client_fee_in_cents)
}

#[test]
fn fees_follow_from_the_ticket_lines() {
    let c = catalog();
    let mut s = store();
    let mut cart = cart_for(ALICE, &mut s);
    cart.update_quantities(ALICE, &[wish(TYPE_A, 3, None), wish(TYPE_B, 1, None)], false, false, &c, &mut s, NOW).unwrap();
    let tickets = lines_of(&s, &cart, OrderItemTypes::Tickets);
    let unit = lines_of(&s, &cart, OrderItemTypes::PerUnitFees);
    let event = lines_of(&s, &cart, OrderItemTypes::EventFees);
    assert_eq!(unit.len(), 2);
    assert_eq!(fee_shape(&unit[0]), (OrderItemTypes::PerUnitFees, Some(EVENT), 3, 100, Some(tickets[0].id), Some(30), 40, 60));
    assert_eq!(fee_shape(&unit[1]), (OrderItemTypes::PerUnitFees, Some(EVENT), 1, 150, Some(tickets[1].id), Some(31), 60, 90));
    // one fee for the event, though two lines belong to it
    assert_eq!(event.len(), 1);
    assert_eq!(fee_shape(&event[0]), (OrderItemTypes::EventFees, Some(EVENT), 1, 50, None, None, 20, 30));
    assert_eq!(cart.calculate_total(&s), Ok(3 * 1000 + 2000 + 3 * 100 + 150 + 50));
}

#[test]
fn fees_computed_twice_are_the_fees_computed_once() {
    let c = catalog();
    let mut s = store();
    let mut cart = cart_for(ALICE, &mut s);
    cart.update_quantities(
        ALICE,
        &[wish(TYPE_A, 2, Some("TENOFF")), wish(TYPE_B, 1, None), wish(TYPE_A, 1, Some("COMPED"))],
        false,
        false,
        &c,
        &mut s,
        NOW,
    )
    .unwrap();
    let once = s.snapshot();
    let total = cart.calculate_total(&s).unwrap();
    cart.update_fees(&c, &mut s).unwrap();
    assert_eq!(s.order_items.len(), once.order_items.len());
    for (a, b) in s.order_items.iter().zip(once.order_items.iter()) {
        let mut a = *a;
        if a.item_type != OrderItemTypes::Tickets {
            assert_ne!(a.id, b.id);
            a.id = b.id;
        }
        assert_eq!(a, *b);
    }
    assert_eq!(cart.calculate_total(&s), Ok(total));
    assert_eq!(s.orders, once.orders);
    assert_eq!(s.ticket_instances, once.ticket_instances);
    cart.update_fees(&c, &mut s).unwrap();
    assert_eq!(s.order_items.len(), once.order_items.len());
    assert_eq!(cart.calculate_total(&s), Ok(total));
}

#[test]
fn a_run_under_a_comp_hold_brings_no_fee_but_another_run_does() {
    let c = catalog();
    let mut s = store();
    let mut cart = cart_for(ALICE, &mut s);
    cart.update_quantities(
        ALICE,
        &[wish(TYPE_A, 1, Some("COMPED")), wish(TYPE_A, 1, Some("HOLD10")), wish(TYPE_A, 2, None)],
        false,
        false,
        &c,
        &mut s,
        NOW,
    )
    .unwrap();
    let tickets = lines_of(&s, &cart, OrderItemTypes::Tickets);
    assert_eq!(tickets.len(), 3);
    let unit = lines_of(&s, &cart, OrderItemTypes::PerUnitFees);
    assert_eq!(unit.len(), 2);
    assert_eq!(unit[0].parent_id, Some(tickets[1].id));
    assert_eq!(unit[1].parent_id, Some(tickets[2].id));
    let event = lines_of(&s, &cart, OrderItemTypes::EventFees);
    assert_eq!(event.len(), 1);
    // in the order of the table: the fee of the event comes with the first run that pays
    let derived: Vec<OrderItemTypes> = s.order_items.iter().filter(|i| i.item_type != OrderItemTypes::Tickets).map(|i| i.item_type).collect();
    assert_eq!(derived, vec![OrderItemTypes::PerUnitFees, OrderItemTypes::EventFees, OrderItemTypes::PerUnitFees]);
}

#[test]
fn lines_of_one_run_share_the_event_fee() {
    let mut c = catalog();
    c.ticket_types.push(TicketType { id: 13, event_id: EVENT, limit_per_person: 0 });
    c.ticket_pricing.push(pricing(23, 13, 0, false));
    let mut s = store();
    s.ticket_instances.push(ticket(1500, 13, None));
    let mut cart = cart_for(ALICE, &mut s);
    // a free ticket first, then a paid one, both without hold: one run
    cart.update_quantities(ALICE, &[wish(13, 1, None), wish(TYPE_A, 1, None)], false, false, &c, &mut s, NOW).unwrap();
    let derived: Vec<OrderItemTypes> = s.order_items.iter().filter(|i| i.item_type != OrderItemTypes::Tickets).map(|i| i.item_type).collect();
    assert_eq!(derived, vec![OrderItemTypes::PerUnitFees, OrderItemTypes::EventFees]);
    // free tickets alone bring no fee at all
    cart.update_quantities(ALICE, &[wish(TYPE_A, 0, None)], false, false, &c, &mut s, NOW).unwrap();
    assert_eq!(s.order_items.len(), 1);
}

#[test]
fn a_discount_code_brings_a_discount_line() {
    let c = catalog();
    let mut s = store();
    let mut cart = cart_for(ALICE, &mut s);
    cart.update_quantities(ALICE, &[wish(TYPE_A, 2, Some("TENOFF"))], false, false, &c, &mut s, NOW).unwrap();
    let tickets = lines_of(&s, &cart, OrderItemTypes::Tickets);
    assert_eq!(tickets[0].unit_price_in_cents, 1000);
    let discounts = lines_of(&s, &cart, OrderItemTypes::Discount);
    assert_eq!(discounts.len(), 1);
    assert_eq!(discounts[0].unit_price_in_cents, -100);
    assert_eq!(discounts[0].quantity, 2);
    assert_eq!(discounts[0].parent_id, Some(tickets[0].id));
    assert_eq!(discounts[0].code_id, None);
    assert_eq!(tickets[0].find_discount_item(&s), Some(discounts[0]));
    // the fee is that of the net price
    let unit = lines_of(&s, &cart, OrderItemTypes::PerUnitFees);
    assert_eq!(unit[0].unit_price_in_cents, 100);
    assert_eq!(tickets[0].find_fee_item(&s), Some(unit[0]));
    assert_eq!(cart.calculate_total(&s), Ok(2 * 1000 - 2 * 100 + 2 * 100 + 50));
}

#[test]
fn a_percentage_is_taken_of_the_price() {
    let c = catalog();
    let mut s = store();
    let mut cart = cart_for(ALICE, &mut s);
    cart.update_quantities(ALICE, &[wish(TYPE_B, 1, Some("HALF"))], false, false, &c, &mut s, NOW).unwrap();
    let discounts = lines_of(&s, &cart, OrderItemTypes::Discount);
    assert_eq!(discounts[0].unit_price_in_cents, -1000);
    // net 1000 is below the second range
    let unit = lines_of(&s, &cart, OrderItemTypes::PerUnitFees);
    assert_eq!(unit[0].unit_price_in_cents, 100);
    assert_eq!(unit[0].fee_schedule_range_id, Some(30));
}

#[test]
fn fees_are_for_drafts() {
    let c = catalog();
    let mut s = store();
    let order = paid_order(&c, &mut s, ALICE, &[wish(TYPE_A, 1, None)]);
    let before = s.snapshot();
    assert_eq!(order.update_fees(&c, &mut s), Err(DatabaseError::DeleteFromNonDraftOrder));
    assert_eq!(s, before);
}

#[test]
fn a_line_with_an_unknown_event_or_hold_stops_the_fees() {
    let mut c = catalog();
    let mut s = store();
    let mut cart = cart_for(ALICE, &mut s);
    cart.update_quantities(ALICE, &[wish(TYPE_A, 1, Some("HOLD10"))], false, false, &c, &mut s, NOW).unwrap();
    let before = s.snapshot();
    c.holds.remove(0);
    assert_eq!(cart.update_fees(&c, &mut s), Err(DatabaseError::NotFound { table: Tables::Holds, id: HOLD_DISCOUNT }));
    c = catalog();
    c.events.remove(0);
    assert_eq!(cart.update_fees(&c, &mut s), Err(DatabaseError::NotFound { table: Tables::Events, id: EVENT }));
    assert_eq!(s, before);
}

#[test]
fn the_total_is_the_sum_of_the_lines() {
    let c = catalog();
    let mut s = store();
    let mut cart = cart_for(ALICE, &mut s);
    assert_eq!(cart.calculate_total(&s), Ok(0));
    cart.update_quantities(ALICE, &[wish(TYPE_A, 2, None)], false, false, &c, &mut s, NOW).unwrap();
    assert_eq!(cart.calculate_total(&s), Ok(2 * 1000 + 2 * 100 + 50));
    let line = lines_of(&s, &cart, OrderItemTypes::Tickets)[0];
    let at = s.order_items.iter().position(|i| i.id == line.id).unwrap();
    s.order_items[at].unit_price_in_cents = i64::MAX;
    assert_eq!(cart.calculate_total(&s), Err(DatabaseError::ArithmeticOverflow));
    assert_eq!(DatabaseError::ArithmeticOverflow.error_code(), ErrorCode::InternalError);
}

#[test]
fn a_payment_in_full_completes_the_order() {
    let c = catalog();
    let mut s = store();
    let mut cart = cart_for(ALICE, &mut s);
    cart.update_quantities(ALICE, &[wish(TYPE_A, 2, None)], false, false, &c, &mut s, NOW).unwrap();
    let total = cart.calculate_total(&s).unwrap();
    let line = lines_of(&s, &cart, OrderItemTypes::Tickets)[0];
    let paid_at = NOW + 60;
    let payment = cart
        .add_credit_card_payment(ALICE, total, PaymentProviders::Stripe, "ch_1".to_string(), PaymentStatus::Completed, "{}".to_string(), &c, &mut s, paid_at)
        .unwrap();
    assert_eq!(payment.amount, total);
    assert_eq!(payment.order_id, cart.id);
    assert_eq!(payment.payment_method, PaymentMethods::CreditCard);
    assert_eq!(payment.external_reference, Some("ch_1".to_string()));
    assert_eq!(s.payments, vec![payment.clone()]);
    assert_eq!(cart.payments(&s), vec![payment]);
    assert_eq!(cart.status, OrderStatus::Paid);
    assert_eq!(cart.paid_at, Some(paid_at));
    let row = Order::find(cart.id, &s).unwrap();
    assert_eq!(row.status, OrderStatus::Paid);
    assert_eq!(row.paid_at, Some(paid_at));
    assert_eq!(held_by(&s, &line, TicketInstanceStatus::Purchased), 2);
    for t in s.ticket_instances.iter().filter(|t| t.order_item_id == Some(line.id)) {
        assert_eq!(t.owner_id, Some(ALICE));
    }
    // the log names every ticket of the order
    let completed: Vec<&DomainEvent> = s.domain_events.iter().filter(|e| e.event_type == DomainEventTypes::OrderCompleted).collect();
    assert_eq!(completed.len(), 1);
    assert_eq!(completed[0].main_id, Some(cart.id));
    let named: Vec<u128> = s.domain_event_tickets.iter().filter(|t| t.domain_event_id == completed[0].id).map(|t| t.ticket_instance_id).collect();
    assert_eq!(named, vec![1000, 1001]);
    assert_eq!(cart.tickets(TYPE_A, &s).iter().map(|t| t.id).collect::<Vec<u128>>(), vec![1000, 1001]);
    // and a message to the buyer waits for three days
    assert_eq!(s.domain_actions.len(), 1);
    let action = s.domain_actions[0];
    assert_eq!(action.domain_action_type, DomainActionTypes::SendPurchaseCompletedCommunication);
    assert_eq!(action.domain_event_id, Some(completed[0].id));
    assert_eq!(action.main_table_id, cart.id);
    assert_eq!(action.scheduled_at, paid_at);
    assert_eq!(action.expires_at, paid_at + 3 * 24 * 60 * 60 * 1_000_000);
    assert_eq!(action.status, DomainActionStatus::Pending);
    // the cart of the user is gone
    assert_eq!(s.users[0].last_cart_id, None);
    assert_eq!(cart.total_paid(&s), Ok(total));
}

#[test]
fn a_payment_that_is_short_leaves_the_order_open() {
    let c = catalog();
    let mut s = store();
    let mut cart = cart_for(ALICE, &mut s);
    cart.update_quantities(ALICE, &[wish(TYPE_A, 2, None)], false, false, &c, &mut s, NOW).unwrap();
    let total = cart.calculate_total(&s).unwrap();
    cart.add_provider_payment(None, PaymentProviders::Globee, Some(ALICE), total - 1, PaymentStatus::Completed, None, "{}".to_string(), &c, &mut s, NOW).unwrap();
    assert_eq!(cart.status, OrderStatus::Draft);
    assert_eq!(cart.total_paid(&s), Ok(total - 1));
    // a payment that is only requested does not count, and leaves the cart to the user
    let mut other = cart_for(BOB, &mut s);
    other.update_quantities(BOB, &[wish(TYPE_A, 1, None)], false, false, &c, &mut s, NOW).unwrap();
    other.add_provider_payment(None, PaymentProviders::Globee, Some(BOB), 5000, PaymentStatus::Requested, Some("nonce".to_string()), "{}".to_string(), &c, &mut s, NOW).unwrap();
    assert_eq!(other.status, OrderStatus::Draft);
    assert_eq!(other.total_paid(&s), Ok(0));
    assert_eq!(s.users[1].last_cart_id, Some(other.id));
    assert_eq!(s.users[0].last_cart_id, None);
    // the rest completes the first order
    cart.add_provider_payment(None, PaymentProviders::Globee, Some(ALICE), 1, PaymentStatus::Completed, None, "{}".to_string(), &c, &mut s, NOW).unwrap();
    assert_eq!(cart.status, OrderStatus::Paid);
}

#[test]
fn a_free_checkout_is_recorded_as_such() {
    let c = catalog();
    let mut s = store();
    let mut cart = cart_for(ALICE, &mut s);
    cart.update_quantities(ALICE, &[wish(TYPE_A, 1, Some("COMPED"))], false, false, &c, &mut s, NOW).unwrap();
    let payment = cart.add_free_payment(false, ALICE, &c, &mut s, NOW).unwrap();
    assert_eq!(payment.amount, 0);
    assert_eq!(payment.payment_method, PaymentMethods::Free);
    assert_eq!(payment.provider, PaymentProviders::Free);
    assert_eq!(payment.external_reference, Some("Free Checkout".to_string()));
    assert_eq!(payment.status, PaymentStatus::Completed);
    assert_eq!(cart.status, OrderStatus::Paid);
}

#[test]
fn an_external_payment_records_its_kind() {
    let c = catalog();
    let mut s = store();
    let mut cart = cart_for(ALICE, &mut s);
    cart.update_quantities(ALICE, &[wish(TYPE_A, 1, None)], false, false, &c, &mut s, NOW).unwrap();
    let payment = cart.add_external_payment(Some("till 3".to_string()), ExternalPaymentType::Voucher, BOB, 10, &c, &mut s, NOW).unwrap();
    assert_eq!(payment.provider, PaymentProviders::External);
    assert_eq!(payment.created_by, Some(BOB));
    assert_eq!(cart.external_payment_type, Some(ExternalPaymentType::Voucher));
    assert_eq!(Order::find(cart.id, &s).unwrap().external_payment_type, Some(ExternalPaymentType::Voucher));
    assert_eq!(cart.status, OrderStatus::Draft);
    // a paid order takes no external payment
    let mut paid = paid_order(&c, &mut s, BOB, &[wish(TYPE_A, 1, None)]);
    let before = s.snapshot();
    assert_eq!(
        paid.add_external_payment(None, ExternalPaymentType::Cash, BOB, 10, &c, &mut s, NOW),
        Err(DatabaseError::OrderNotDraft)
    );
    assert_eq!(s, before);
}

#[test]
fn a_code_that_ran_out_stops_the_payment() {
    let c = catalog();
    let mut s = store();
    let mut cart = cart_for(ALICE, &mut s);
    cart.update_quantities(ALICE, &[wish(TYPE_A, 1, Some("ACCESS"))], false, false, &c, &mut s, NOW).unwrap();
    let before = s.snapshot();
    let late = NOW * 2 + 1;
    assert_eq!(
        cart.add_free_payment(false, ALICE, &c, &mut s, late),
        Err(DatabaseError::CodeNotValid { code_id: CODE_ACCESS, start_date: 0, end_date: NOW * 2 })
    );
    assert_eq!(s, before);
    assert_eq!(cart.confirm_codes_valid(&c, &s, NOW), Ok(()));
}

#[test]
fn a_paid_or_cancelled_order_is_not_completed_again() {
    let c = catalog();
    let mut s = store();
    let mut order = paid_order(&c, &mut s, ALICE, &[wish(TYPE_A, 1, None)]);
    let before = s.snapshot();
    order.complete_if_fully_paid(Some(ALICE), &mut s, NOW).unwrap();
    assert_eq!(s, before);
    let mut cart = cart_for(BOB, &mut s);
    cart.update_status(Some(BOB), OrderStatus::Cancelled, &mut s, NOW).unwrap();
    let before = s.snapshot();
    cart.complete_if_fully_paid(Some(BOB), &mut s, NOW).unwrap();
    assert_eq!(cart.status, OrderStatus::Cancelled);
    assert_eq!(s, before);
}

#[test]
fn one_ticket_of_a_paid_order_is_refunded_once() {
    let c = catalog();
    let mut s = store();
    let order = paid_order(&c, &mut s, ALICE, &[wish(TYPE_A, 2, None)]);
    let line = lines_of(&s, &order, OrderItemTypes::Tickets)[0];
    let fee = lines_of(&s, &order, OrderItemTypes::PerUnitFees)[0];
    let entry = RefundItem { order_item_id: line.id, ticket_instance_id: Some(1000) };
    let refunded = order.refund(vec![entry], &mut s, NOW + 5).unwrap();
    // the ticket and its fee
    assert_eq!(refunded, 1000 + 100);
    assert_eq!(OrderItem::find(line.id, &s).unwrap().refunded_quantity, 1);
    assert_eq!(OrderItem::find(fee.id, &s).unwrap().refunded_quantity, 1);
    assert_eq!(s.ticket_instances[0], ticket(1000, TYPE_A, None));
    assert_eq!(s.ticket_instances[1].status, TicketInstanceStatus::Purchased);
    assert_eq!(s.refunded_tickets.len(), 1);
    assert_eq!(s.refunded_tickets[0].ticket_instance_id, 1000);
    assert_eq!(s.refunded_tickets[0].ticket_refunded_at, Some(NOW + 5));
    assert_eq!(s.refunded_tickets[0].fee_refunded_at, Some(NOW + 5));
    // the second time it is refused
    let before = s.snapshot();
    let again = order.refund(vec![entry], &mut s, NOW + 6);
    assert_eq!(again, Err(DatabaseError::AlreadyRefunded));
    assert_eq!(again.unwrap_err().error_code(), ErrorCode::BusinessProcessError);
    assert_eq!(s, before);
    // also as a part of a longer list
    let other = RefundItem { order_item_id: line.id, ticket_instance_id: Some(1001) };
    assert_eq!(order.refund(vec![other, entry], &mut s, NOW + 6), Err(DatabaseError::AlreadyRefunded));
    assert_eq!(s, before);
    assert_eq!(order.calculate_total(&s), Ok(1000 + 100 + 50));
}

#[test]
fn the_last_ticket_takes_the_event_fee_with_it() {
    let c = catalog();
    let mut s = store();
    let order = paid_order(&c, &mut s, ALICE, &[wish(TYPE_A, 2, None)]);
    let line = lines_of(&s, &order, OrderItemTypes::Tickets)[0];
    let event_fee = lines_of(&s, &order, OrderItemTypes::EventFees)[0];
    assert!(order.event_fee_items_with_no_associated_items(&s).is_empty());
    let both = vec![
        RefundItem { order_item_id: line.id, ticket_instance_id: Some(1000) },
        RefundItem { order_item_id: line.id, ticket_instance_id: Some(1001) },
    ];
    assert_eq!(order.refund(both, &mut s, NOW), Ok(2 * (1000 + 100) + 50));
    assert_eq!(OrderItem::find(line.id, &s).unwrap().refunded_quantity, 2);
    assert_eq!(OrderItem::find(event_fee.id, &s).unwrap().refunded_quantity, 1);
    assert_eq!(order.calculate_total(&s), Ok(0));
    for i in s.order_items.iter() {
        assert!(0 <= i.refunded_quantity && i.refunded_quantity <= i.quantity);
    }
}

#[test]
fn a_fee_is_refunded_alone_and_then_not_again() {
    let c = catalog();
    let mut s = store();
    let order = paid_order(&c, &mut s, ALICE, &[wish(TYPE_A, 1, None)]);
    let line = lines_of(&s, &order, OrderItemTypes::Tickets)[0];
    let fee = lines_of(&s, &order, OrderItemTypes::PerUnitFees)[0];
    let fee_only = RefundItem { order_item_id: fee.id, ticket_instance_id: Some(1000) };
    assert_eq!(order.refund(vec![fee_only], &mut s, NOW), Ok(100));
    assert_eq!(s.refunded_tickets[0].ticket_refunded_at, None);
    assert_eq!(s.refunded_tickets[0].fee_refunded_at, Some(NOW));
    assert_eq!(s.ticket_instances[0].status, TicketInstanceStatus::Available);
    assert_eq!(order.refund(vec![fee_only], &mut s, NOW), Err(DatabaseError::AlreadyRefunded));
    // the ticket itself can still be refunded, without its fee
    let whole = RefundItem { order_item_id: line.id, ticket_instance_id: Some(1000) };
    assert_eq!(order.refund(vec![whole], &mut s, NOW + 1), Ok(1000 + 50));
    assert_eq!(OrderItem::find(fee.id, &s).unwrap().refunded_quantity, 1);
}

#[test]
fn a_redeemed_ticket_is_refunded_but_stays_redeemed() {
    let mut c = catalog();
    c.redeem_keys.push(RedeemKey { ticket_instance_id: 1000, redeem_key: "K".to_string() });
    let mut s = store();
    let order = paid_order(&c, &mut s, ALICE, &[wish(TYPE_A, 1, None)]);
    let line = lines_of(&s, &order, OrderItemTypes::Tickets)[0];
    assert_eq!(TicketInstance::redeem_ticket(1000, &"K".to_string(), BOB, &c, &mut s, NOW), Ok(RedeemResults::TicketRedeemSuccess));
    assert_eq!(order.refund(vec![RefundItem { order_item_id: line.id, ticket_instance_id: Some(1000) }], &mut s, NOW), Ok(1000 + 100 + 50));
    assert_eq!(s.ticket_instances[0].status, TicketInstanceStatus::Redeemed);
    assert_eq!(s.ticket_instances[0].order_item_id, Some(line.id));
}

#[test]
fn a_discount_is_refunded_with_its_ticket() {
    let c = catalog();
    let mut s = store();
    let order = paid_order(&c, &mut s, ALICE, &[wish(TYPE_A, 1, Some("TENOFF"))]);
    let line = lines_of(&s, &order, OrderItemTypes::Tickets)[0];
    let discount = lines_of(&s, &order, OrderItemTypes::Discount)[0];
    assert_eq!(order.refund(vec![RefundItem { order_item_id: line.id, ticket_instance_id: Some(1000) }], &mut s, NOW), Ok(1000 - 100 + 100 + 50));
    assert_eq!(OrderItem::find(discount.id, &s).unwrap().refunded_quantity, 1);
    assert_eq!(order.calculate_total(&s), Ok(0));
}

#[test]
fn refunds_that_are_refused() {
    let c = catalog();
    let mut s = store();
    let order = paid_order(&c, &mut s, ALICE, &[wish(TYPE_A, 1, None)]);
    let other = paid_order(&c, &mut s, BOB, &[wish(TYPE_A, 1, None)]);
    let line = lines_of(&s, &order, OrderItemTypes::Tickets)[0];
    let event_fee = lines_of(&s, &order, OrderItemTypes::EventFees)[0];
    let before = s.snapshot();
    let refuse = |s: &mut Store, order: &Order, entry: RefundItem, e: DatabaseError| {
        assert_eq!(order.refund(vec![entry], s, NOW), Err(e));
        assert_eq!(e.error_code() == ErrorCode::BusinessProcessError || e.error_code() == ErrorCode::NoResults, true);
    };
    refuse(&mut s, &order, RefundItem { order_item_id: 1, ticket_instance_id: None }, DatabaseError::NotFound { table: Tables::OrderItems, id: 1 });
    refuse(&mut s, &other, RefundItem { order_item_id: line.id, ticket_instance_id: Some(1000) }, DatabaseError::ItemNotInOrder);
    refuse(&mut s, &order, RefundItem { order_item_id: line.id, ticket_instance_id: Some(1) }, DatabaseError::NotFound { table: Tables::TicketInstances, id: 1 });
    refuse(&mut s, &order, RefundItem { order_item_id: line.id, ticket_instance_id: None }, DatabaseError::TicketRequiredForRefund);
    assert_eq!(s, before);
    s.ticket_instances[0].transferred = true;
    assert!(s.ticket_instances[0].was_transferred());
    refuse(&mut s, &order, RefundItem { order_item_id: line.id, ticket_instance_id: Some(1000) }, DatabaseError::TicketTransferred);
    s.ticket_instances[0].transferred = false;
    // an event fee line needs no ticket, and has one unit
    assert_eq!(order.refund(vec![RefundItem { order_item_id: event_fee.id, ticket_instance_id: None }], &mut s, NOW), Ok(50));
    refuse(&mut s, &order, RefundItem { order_item_id: event_fee.id, ticket_instance_id: None }, DatabaseError::NothingLeftToRefund);
    // nothing is refunded from an order that is not paid
    let mut cart = cart_for(ALICE, &mut s);
    cart.update_quantities(ALICE, &[wish(TYPE_A, 1, None)], false, false, &c, &mut s, NOW).unwrap();
    let draft_line = lines_of(&s, &cart, OrderItemTypes::Tickets)[0];
    let held = s.ticket_instances.iter().find(|t| t.order_item_id == Some(draft_line.id)).unwrap().id;
    refuse(&mut s, &cart, RefundItem { order_item_id: draft_line.id, ticket_instance_id: Some(held) }, DatabaseError::RefundOfUnpaidOrder);
    assert_eq!(draft_line.refund_one_unit(true, &mut s), Err(DatabaseError::RefundOfUnpaidOrder));
}

#[test]
fn a_row_never_holds_more_refunded_units_than_units() {
    let c = catalog();
    let mut s = store();
    let order = paid_order(&c, &mut s, ALICE, &[wish(TYPE_A, 1, None)]);
    let mut line = lines_of(&s, &order, OrderItemTypes::Tickets)[0];
    line.refunded_quantity = 2;
    let before = s.snapshot();
    assert_eq!(line.update(&mut s), Err(DatabaseError::RefundedQuantityConstraint));
    assert_eq!(line.insert(&mut s), Err(DatabaseError::RefundedQuantityConstraint));
    assert_eq!(DatabaseError::RefundedQuantityConstraint.error_code(), ErrorCode::UpdateError);
    assert_eq!(s, before);
    line.refunded_quantity = 1;
    line.update(&mut s).unwrap();
    assert_eq!(OrderItem::find(line.id, &s).unwrap().refunded_quantity, 1);
    assert_eq!(line.refund_one_unit(true, &mut s), Err(DatabaseError::NothingLeftToRefund));
}

#[test]
fn the_price_that_applies_now() {
    let mut c = catalog();
    assert_eq!(TicketPricing::get_current_ticket_pricing(TYPE_A, false, &c, NOW), Ok(c.ticket_pricing[0]));
    // at the box office the online price applies where there is no other
    assert_eq!(TicketPricing::get_current_ticket_pricing(TYPE_A, true, &c, NOW), Ok(c.ticket_pricing[0]));
    c.ticket_pricing.push(pricing(25, TYPE_A, 800, true));
    assert_eq!(TicketPricing::get_current_ticket_pricing(TYPE_A, true, &c, NOW).unwrap().id, 25);
    assert_eq!(TicketPricing::get_current_ticket_pricing(TYPE_A, false, &c, NOW).unwrap().id, PRICING_A);
    // not before it starts, not when it has ended, not when it is deleted
    assert_eq!(
        TicketPricing::get_current_ticket_pricing(TYPE_A, false, &c, NOW * 2),
        Err(DatabaseError::NoTicketPricing { ticket_type_id: TYPE_A })
    );
    assert_eq!(TicketPricing::get_current_ticket_pricing(TYPE_A, false, &c, 0).unwrap().id, PRICING_A);
    assert_eq!(
        TicketPricing::get_current_ticket_pricing(TYPE_A, false, &c, -1),
        Err(DatabaseError::NoTicketPricing { ticket_type_id: TYPE_A })
    );
    c.ticket_pricing[0].status = TicketPricingStatus::Deleted;
    assert_eq!(
        TicketPricing::get_current_ticket_pricing(TYPE_A, false, &c, NOW),
        Err(DatabaseError::NoTicketPricing { ticket_type_id: TYPE_A })
    );
    c.ticket_pricing.push(pricing(26, TYPE_B, 1, false));
    assert_eq!(
        TicketPricing::get_current_ticket_pricing(TYPE_B, false, &c, NOW),
        Err(DatabaseError::AmbiguousTicketPricing { ticket_type_id: TYPE_B })
    );
}

#[test]
fn what_a_hold_or_code_takes_off() {
    let discount = Redemption::Hold { id: 1, hold_type: HoldTypes::Discount, discount_in_cents: Some(300), max_per_user: None };
    let comp = Redemption::Hold { id: 1, hold_type: HoldTypes::Comp, discount_in_cents: Some(5), max_per_user: None };
    let access = Redemption::Code { id: 1, code_type: CodeTypes::Access, discount_in_cents: Some(200) };
    let code = Redemption::Code { id: 1, code_type: CodeTypes::Discount, discount_in_cents: Some(200) };
    assert_eq!(TicketPricing::unit_price(1000, Redemption::Nothing), Ok(1000));
    assert_eq!(TicketPricing::unit_price(1000, discount), Ok(700));
    assert_eq!(TicketPricing::unit_price(200, discount), Ok(0));
    assert_eq!(TicketPricing::unit_price(1000, comp), Ok(0));
    assert_eq!(TicketPricing::unit_price(1000, access), Ok(800));
    assert_eq!(TicketPricing::unit_price(100, access), Ok(0));
    assert_eq!(TicketPricing::unit_price(1000, code), Ok(1000));
    let none = Redemption::Hold { id: 1, hold_type: HoldTypes::Discount, discount_in_cents: None, max_per_user: None };
    assert_eq!(TicketPricing::unit_price(1000, none), Ok(1000));
    let odd = Redemption::Hold { id: 1, hold_type: HoldTypes::Discount, discount_in_cents: Some(-1), max_per_user: None };
    assert_eq!(TicketPricing::unit_price(i64::MAX, odd), Err(DatabaseError::ArithmeticOverflow));
    assert_eq!(discount.hold_id(), Some(1));
    assert_eq!(discount.code_id(), None);
    assert_eq!(access.code_id(), Some(1));
    assert_eq!(discount.limit_per_person(), Some(0));
    assert_eq!(access.limit_per_person(), None);
}

#[test]
fn the_fee_range_for_a_price() {
    let c = catalog();
    assert_eq!(FeeScheduleRange::find_for_price(SCHEDULE, 1, &c).unwrap().id, 30);
    assert_eq!(FeeScheduleRange::find_for_price(SCHEDULE, 1499, &c).unwrap().id, 30);
    assert_eq!(FeeScheduleRange::find_for_price(SCHEDULE, 1500, &c).unwrap().id, 31);
    assert_eq!(FeeScheduleRange::find_for_price(SCHEDULE, -1, &c), None);
    assert_eq!(FeeScheduleRange::find_for_price(901, 1500, &c), None);
}

#[test]
fn a_refund_counts_on_the_row_not_on_the_copy() {
    let c = catalog();
    let mut s = store();
    let order = paid_order(&c, &mut s, ALICE, &[wish(TYPE_A, 3, None)]);
    let stale = lines_of(&s, &order, OrderItemTypes::Tickets)[0];
    assert_eq!(stale.refunded_quantity, 0);
    assert_eq!(stale.refund_one_unit(false, &mut s), Ok(1000));
    // the copy still says that nothing was refunded; the row goes on counting
    assert_eq!(stale.refund_one_unit(false, &mut s), Ok(1000));
    assert_eq!(OrderItem::find(stale.id, &s).unwrap().refunded_quantity, 2);
    assert_eq!(stale.refund_one_unit(true, &mut s), Ok(1000 + 100));
    assert_eq!(OrderItem::find(stale.id, &s).unwrap().refunded_quantity, 3);
    let before = s.snapshot();
    assert_eq!(stale.refund_one_unit(true, &mut s), Err(DatabaseError::NothingLeftToRefund));
    let mut gone = stale;
    gone.id = 4;
    assert_eq!(gone.refund_one_unit(true, &mut s), Err(DatabaseError::NotFound { table: Tables::OrderItems, id: 4 }));
    assert_eq!(s, before);
}
