#![allow(dead_code)]
#![allow(unused_imports)]

use ticketing_core::errors::{DatabaseError, ErrorCode};
use ticketing_core::model::{
    Code, DomainAction, DomainEvent, DomainEventTicket, Event, EventData, FeeScheduleRange, Hold,
    NewPayment, Order, OrderItem, Payment, RedeemKey, RefundItem, RefundedTicket, TicketInstance,
    TicketPricing, TicketType, UpdateOrderItem, User,
};
use ticketing_core::store::{Catalog, Store};
use ticketing_core::types::{
    CartItemStatus, CodeTypes, DomainActionStatus, DomainActionTypes, DomainEventTypes, ExternalPaymentType,
    HoldTypes, OrderItemTypes, OrderStatus, OrderTypes, PaymentMethods, PaymentProviders,
    PaymentStatus, RedeemResults, Tables, TicketInstanceStatus, TicketPricingStatus,
};

const NOW: i64 = 1_000_000_000_000;
const QUARTER_HOUR: i64 = 15 * 60 * 1_000_000;
const EVENT: u128 = 100;
const OTHER_EVENT: u128 = 101;
const TYPE_A: u128 = 10;
const TYPE_B: u128 = 11;
const TYPE_C: u128 = 12;
const PRICING_A: u128 = 20;
const PRICING_B: u128 = 21;
const PRICING_C: u128 = 22;
const SCHEDULE: u128 = 900;
const HOLD_DISCOUNT: u128 = 40;
const HOLD_COMP: u128 = 41;
const HOLD_ENDED: u128 = 42;
const CODE_ACCESS: u128 = 50;
const CODE_CENTS: u128 = 51;
const CODE_PERCENT: u128 = 52;
const CODE_EXPIRED: u128 = 53;
const ALICE: u128 = 1;
const BOB: u128 = 2;

fn ticket(id: u128, ticket_type_id: u128, hold_id: Option<u128>) -> TicketInstance {
    TicketInstance {
        id,
        ticket_type_id,
        hold_id,
        order_item_id: None,
        owner_id: None,
        reserved_until: None,
        status: TicketInstanceStatus::Available,
        transferred: false,
    }
}

fn pricing(id: u128, ticket_type_id: u128, price_in_cents: i64, box_office: bool) -> TicketPricing {
    TicketPricing {
        id,
        ticket_type_id,
        price_in_cents,
        start_date: 0,
        end_date: NOW * 2,
        is_box_office_only: box_office,
        status: TicketPricingStatus::Published,
    }
}

fn code(id: u128, text: &str, code_type: CodeTypes, cents: Option<i64>, percent: Option<i64>, end: i64) -> Code {
    Code {
        id,
        event_id: EVENT,
        code_type,
        redemption_code: text.to_string(),
        max_uses: 100,
        discount_in_cents: cents,
        discount_as_percentage: percent,
        start_date: 0,
        end_date: end,
        max_tickets_per_user: None,
    }
}

fn hold(id: u128, text: &str, hold_type: HoldTypes, cents: Option<i64>, max_per_user: Option<i64>, end_at: Option<i64>) -> Hold {
    Hold {
        id,
        event_id: EVENT,
        ticket_type_id: TYPE_A,
        redemption_code: text.to_string(),
        hold_type,
        discount_in_cents: cents,
        max_per_user,
        end_at,
    }
}

fn catalog() -> Catalog {
    let mut c = Catalog::new();
    c.events.push(Event { id: EVENT, fee_schedule_id: Some(SCHEDULE), fee_in_cents: 50, company_fee_in_cents: 20, client_fee_in_cents: 30 });
    c.events.push(Event { id: OTHER_EVENT, fee_schedule_id: None, fee_in_cents: 0, company_fee_in_cents: 0, client_fee_in_cents: 0 });
    c.ticket_types.push(TicketType { id: TYPE_A, event_id: EVENT, limit_per_person: 0 });
    c.ticket_types.push(TicketType { id: TYPE_B, event_id: EVENT, limit_per_person: 2 });
    c.ticket_types.push(TicketType { id: TYPE_C, event_id: OTHER_EVENT, limit_per_person: 0 });
    c.ticket_pricing.push(pricing(PRICING_A, TYPE_A, 1000, false));
    c.ticket_pricing.push(pricing(PRICING_B, TYPE_B, 2000, false));
    c.ticket_pricing.push(pricing(PRICING_C, TYPE_C, 500, false));
    c.fee_schedule_ranges.push(FeeScheduleRange { id: 30, fee_schedule_id: SCHEDULE, min_price_in_cents: 0, fee_in_cents: 100, company_fee_in_cents: 40, client_fee_in_cents: 60 });
    c.fee_schedule_ranges.push(FeeScheduleRange { id: 31, fee_schedule_id: SCHEDULE, min_price_in_cents: 1500, fee_in_cents: 150, company_fee_in_cents: 60, client_fee_in_cents: 90 });
    c.holds.push(hold(HOLD_DISCOUNT, "HOLD10", HoldTypes::Discount, Some(300), Some(2), None));
    c.holds.push(hold(HOLD_COMP, "COMPED", HoldTypes::Comp, None, None, None));
    c.holds.push(hold(HOLD_ENDED, "ENDED", HoldTypes::Discount, Some(1), None, Some(NOW - 1)));
    c.codes.push(code(CODE_ACCESS, "ACCESS", CodeTypes::Access, Some(200), None, NOW * 2));
    c.codes.push(code(CODE_CENTS, "TENOFF", CodeTypes::Discount, Some(100), None, NOW * 2));
    c.codes.push(code(CODE_PERCENT, "HALF", CodeTypes::Discount, None, Some(50), NOW * 2));
    c.codes.push(code(CODE_EXPIRED, "EXPIRED", CodeTypes::Access, Some(1), None, NOW - 1));
    c
}

fn store() -> Store {
    let mut s = Store::new(5000);
    s.users.push(User { id: ALICE, last_cart_id: None, updated_at: 7 });
    s.users.push(User { id: BOB, last_cart_id: None, updated_at: 7 });
    for i in 0..5 {
        s.ticket_instances.push(ticket(1000 + i, TYPE_A, None));
    }
    for i in 0..3 {
        s.ticket_instances.push(ticket(1100 + i, TYPE_B, None));
    }
    s.ticket_instances.push(ticket(1200, TYPE_C, None));
    s.ticket_instances.push(ticket(1300, TYPE_A, Some(HOLD_DISCOUNT)));
    s.ticket_instances.push(ticket(1301, TYPE_A, Some(HOLD_DISCOUNT)));
    s.ticket_instances.push(ticket(1302, TYPE_A, Some(HOLD_DISCOUNT)));
    s.ticket_instances.push(ticket(1400, TYPE_A, Some(HOLD_COMP)));
    s
}

fn cart_for(user_id: u128, s: &mut Store) -> Order {
    let user = *s.users.iter().find(|u| u.id == user_id).unwrap();
    Order::find_or_create_cart(&user, s, NOW).unwrap()
}

fn wish(ticket_type_id: u128, quantity: u32, text: Option<&str>) -> UpdateOrderItem {
    UpdateOrderItem { ticket_type_id, quantity, redemption_code: text.map(|t| t.to_string()) }
}

fn lines_of(s: &Store, order: &Order, item_type: OrderItemTypes) -> Vec<OrderItem> {
    s.order_items.iter().filter(|i| i.order_id == order.id && i.item_type == item_type).cloned().collect()
}

fn held_by(s: &Store, item: &OrderItem, status: TicketInstanceStatus) -> usize {
    s.ticket_instances.iter().filter(|t| t.order_item_id == Some(item.id) && t.status == status).count()
}

fn with_status(s: &Store, ticket_type_id: u128, status: TicketInstanceStatus) -> usize {
    s.ticket_instances.iter().filter(|t| t.ticket_type_id == ticket_type_id && t.hold_id.is_none() && t.status == status).count()
}

fn paid_order(c: &Catalog, s: &mut Store, user_id: u128, wishes: &[UpdateOrderItem]) -> Order {
    let mut order = cart_for(user_id, s);
    order.update_quantities(user_id, wishes, false, false, c, s, NOW).unwrap();
    let total = order.calculate_total(s).unwrap();
    order
        .add_external_payment(Some("till".to_string()), ExternalPaymentType::Cash, user_id, total, c, s, NOW)
        .unwrap();
    assert_eq!(order.status, OrderStatus::Paid);
    order
}

#[test]
fn empty_cart_gets_three_tickets() {
    let c = catalog();
    let mut s = store();
    let mut cart = cart_for(ALICE, &mut s);
    assert_eq!(cart.expires_at, None);
    cart.update_quantities(ALICE, &[wish(TYPE_A, 3, None)], false, false, &c, &mut s, NOW).unwrap();
    let tickets = lines_of(&s, &cart, OrderItemTypes::Tickets);
    assert_eq!(tickets.len(), 1);
    assert_eq!(tickets[0].quantity, 3);
    assert_eq!(tickets[0].unit_price_in_cents, 1000);
    assert_eq!(tickets[0].ticket_type_id, Some(TYPE_A));
    assert_eq!(tickets[0].ticket_pricing_id, Some(PRICING_A));
    assert_eq!(tickets[0].event_id, Some(EVENT));
    assert_eq!(held_by(&s, &tickets[0], TicketInstanceStatus::Reserved), 3);
    assert_eq!(with_status(&s, TYPE_A, TicketInstanceStatus::Available), 2);
    assert_eq!(cart.expires_at, Some(NOW + QUARTER_HOUR));
    let row = Order::find(cart.id, &s).unwrap();
    assert_eq!(row.expires_at, Some(NOW + QUARTER_HOUR));
    assert_eq!(row.version, cart.version);
    assert_eq!(cart.version, 1);
    for t in s.ticket_instances.iter().filter(|t| t.order_item_id == Some(tickets[0].id)) {
        assert_eq!(t.reserved_until, Some(NOW + QUARTER_HOUR));
    }
}

#[test]
fn quantity_goes_down_and_tickets_come_back() {
    let c = catalog();
    let mut s = store();
    let mut cart = cart_for(ALICE, &mut s);
    cart.update_quantities(ALICE, &[wish(TYPE_A, 3, None)], false, false, &c, &mut s, NOW).unwrap();
    let expiry = cart.expires_at;
    cart.update_quantities(ALICE, &[wish(TYPE_A, 1, None)], false, false, &c, &mut s, NOW + 5).unwrap();
    let tickets = lines_of(&s, &cart, OrderItemTypes::Tickets);
    assert_eq!(tickets.len(), 1);
    assert_eq!(tickets[0].quantity, 1);
    assert_eq!(held_by(&s, &tickets[0], TicketInstanceStatus::Reserved), 1);
    assert_eq!(with_status(&s, TYPE_A, TicketInstanceStatus::Available), 4);
    assert_eq!(cart.expires_at, expiry);
    assert_eq!(Order::find(cart.id, &s).unwrap().expires_at, expiry);
}

#[test]
fn remove_others_empties_the_cart() {
    let c = catalog();
    let mut s = store();
    let mut cart = cart_for(ALICE, &mut s);
    cart.update_quantities(ALICE, &[wish(TYPE_A, 3, None)], false, false, &c, &mut s, NOW).unwrap();
    cart.update_quantities(ALICE, &[], false, true, &c, &mut s, NOW + 5).unwrap();
    assert!(s.order_items.iter().all(|i| i.order_id != cart.id));
    assert_eq!(with_status(&s, TYPE_A, TicketInstanceStatus::Available), 5);
    assert_eq!(cart.expires_at, None);
    assert_eq!(Order::find(cart.id, &s).unwrap().expires_at, None);
    assert!(!cart.has_items(&s));
}

#[test]
fn without_remove_others_an_unnamed_line_stays() {
    let c = catalog();
    let mut s = store();
    let mut cart = cart_for(ALICE, &mut s);
    cart.update_quantities(ALICE, &[wish(TYPE_A, 2, None)], false, false, &c, &mut s, NOW).unwrap();
    cart.update_quantities(ALICE, &[wish(TYPE_B, 1, None)], false, false, &c, &mut s, NOW).unwrap();
    let tickets = lines_of(&s, &cart, OrderItemTypes::Tickets);
    assert_eq!(tickets.len(), 2);
    assert_eq!(tickets[0].quantity, 2);
    assert_eq!(tickets[1].ticket_type_id, Some(TYPE_B));
}

#[test]
fn the_last_ticket_goes_to_one_cart_only() {
    let c = catalog();
    let mut s = store();
    let mut first = cart_for(ALICE, &mut s);
    let mut second = cart_for(BOB, &mut s);
    assert_ne!(first.id, second.id);
    first.update_quantities(ALICE, &[wish(TYPE_C, 1, None)], false, false, &c, &mut s, NOW).unwrap();
    let before = s.snapshot();
    let refused = second.update_quantities(BOB, &[wish(TYPE_C, 1, None)], false, false, &c, &mut s, NOW);
    assert_eq!(refused, Err(DatabaseError::OutOfStock { ticket_type_id: TYPE_C, hold_id: None, requested: 1 }));
    assert_eq!(refused.unwrap_err().error_code(), ErrorCode::ValidationError);
    assert_eq!(s, before);
    assert_eq!(second.version, 0);
    assert_eq!(lines_of(&s, &first, OrderItemTypes::Tickets).len(), 1);
    assert_eq!(lines_of(&s, &second, OrderItemTypes::Tickets).len(), 0);
}

#[test]
fn over_the_limit_per_person_nothing_changes() {
    let c = catalog();
    let mut s = store();
    let mut cart = cart_for(ALICE, &mut s);
    cart.update_quantities(ALICE, &[wish(TYPE_B, 1, None)], false, false, &c, &mut s, NOW).unwrap();
    let before = s.snapshot();
    let cart_before = cart.clone();
    // limit 2, one held: two more are one too many
    let refused = cart.update_quantities(ALICE, &[wish(TYPE_B, 3, None)], false, false, &c, &mut s, NOW);
    assert_eq!(
        refused,
        Err(DatabaseError::LimitPerPersonExceeded {
            ticket_type_id: TYPE_B,
            hold_id: None,
            limit_per_person: 2,
            attempted_quantity: 3,
        })
    );
    assert_eq!(refused.unwrap_err().error_code(), ErrorCode::ValidationError);
    assert_eq!(s, before);
    assert_eq!(cart, cart_before);
    // up to the limit is fine
    cart.update_quantities(ALICE, &[wish(TYPE_B, 2, None)], false, false, &c, &mut s, NOW).unwrap();
    assert_eq!(lines_of(&s, &cart, OrderItemTypes::Tickets)[0].quantity, 2);
}

#[test]
fn bought_tickets_count_against_the_limit() {
    let c = catalog();
    let mut s = store();
    paid_order(&c, &mut s, ALICE, &[wish(TYPE_B, 1, None)]);
    let mut cart = cart_for(ALICE, &mut s);
    let before = s.snapshot();
    let refused = cart.update_quantities(ALICE, &[wish(TYPE_B, 2, None)], false, false, &c, &mut s, NOW);
    assert_eq!(
        refused,
        Err(DatabaseError::LimitPerPersonExceeded {
            ticket_type_id: TYPE_B,
            hold_id: None,
            limit_per_person: 2,
            attempted_quantity: 3,
        })
    );
    assert_eq!(s, before);
    cart.update_quantities(ALICE, &[wish(TYPE_B, 1, None)], false, false, &c, &mut s, NOW).unwrap();
    assert_eq!(Order::quantity_for_user_for_ticket_type_by_hold(ALICE, TYPE_B, None, &s, NOW), 2);
    assert_eq!(Order::quantity_for_user_for_ticket_type_by_hold(BOB, TYPE_B, None, &s, NOW), 0);
}

#[test]
fn a_hold_has_its_own_limit() {
    let c = catalog();
    let mut s = store();
    let mut cart = cart_for(ALICE, &mut s);
    let refused = cart.update_quantities(ALICE, &[wish(TYPE_A, 3, Some("HOLD10"))], false, false, &c, &mut s, NOW);
    assert_eq!(
        refused,
        Err(DatabaseError::LimitPerPersonExceeded {
            ticket_type_id: TYPE_A,
            hold_id: Some(HOLD_DISCOUNT),
            limit_per_person: 2,
            attempted_quantity: 3,
        })
    );
    assert!(s.order_items.is_empty());
}

#[test]
fn of_two_writers_with_one_version_one_wins() {
    let c = catalog();
    let mut s = store();
    let mut first = cart_for(ALICE, &mut s);
    let mut second = first.clone();
    first.update_quantities(ALICE, &[wish(TYPE_A, 1, None)], false, false, &c, &mut s, NOW).unwrap();
    let before = s.snapshot();
    let refused = second.update_quantities(ALICE, &[wish(TYPE_A, 4, None)], false, false, &c, &mut s, NOW);
    assert_eq!(refused, Err(DatabaseError::OrderVersionMismatch));
    assert_eq!(refused.unwrap_err().error_code(), ErrorCode::ConcurrencyError);
    assert_eq!(s, before);
    assert_eq!(lines_of(&s, &first, OrderItemTypes::Tickets)[0].quantity, 1);
    // after reading again the second writer gets through
    let mut again = Order::find(second.id, &s).unwrap();
    again.update_quantities(ALICE, &[wish(TYPE_A, 4, None)], false, false, &c, &mut s, NOW).unwrap();
    assert_eq!(lines_of(&s, &again, OrderItemTypes::Tickets)[0].quantity, 4);
}

#[test]
fn lock_version_counts_up() {
    let mut s = store();
    let mut cart = cart_for(ALICE, &mut s);
    let mut stale = cart.clone();
    cart.lock_version(&mut s, NOW + 1).unwrap();
    assert_eq!(cart.version, 1);
    let row = Order::find(cart.id, &s).unwrap();
    assert_eq!(row.version, 1);
    assert_eq!(row.updated_at, NOW + 1);
    assert_eq!(stale.lock_version(&mut s, NOW + 2), Err(DatabaseError::OrderVersionMismatch));
    assert_eq!(stale.version, 0);
    let mut unknown = cart.clone();
    unknown.id = 77;
    assert_eq!(unknown.lock_version(&mut s, NOW), Err(DatabaseError::OrderVersionMismatch));
    let mut at_end = cart.clone();
    at_end.version = i64::MAX;
    s.orders[0].version = i64::MAX;
    assert_eq!(at_end.lock_version(&mut s, NOW), Err(DatabaseError::ArithmeticOverflow));
}

#[test]
fn a_change_of_pricing_mode_clears_the_cart() {
    let mut c = catalog();
    c.ticket_pricing.push(pricing(25, TYPE_A, 800, true));
    let mut s = store();
    let mut cart = cart_for(ALICE, &mut s);
    cart.update_quantities(ALICE, &[wish(TYPE_A, 2, None)], false, false, &c, &mut s, NOW).unwrap();
    cart.update_quantities(ALICE, &[wish(TYPE_B, 1, None)], true, false, &c, &mut s, NOW).unwrap();
    assert!(cart.box_office_pricing);
    assert!(Order::find(cart.id, &s).unwrap().box_office_pricing);
    let tickets = lines_of(&s, &cart, OrderItemTypes::Tickets);
    assert_eq!(tickets.len(), 1);
    assert_eq!(tickets[0].ticket_type_id, Some(TYPE_B));
    assert_eq!(with_status(&s, TYPE_A, TicketInstanceStatus::Available), 5);
    // no fees at the box office
    assert!(lines_of(&s, &cart, OrderItemTypes::PerUnitFees).is_empty());
    assert!(lines_of(&s, &cart, OrderItemTypes::EventFees).is_empty());
    // each update takes the lock once, also where it clears the cart
    assert_eq!(cart.version, 2);
    assert_eq!(Order::find(cart.id, &s).unwrap().version, 2);
    // a box office price where there is one
    cart.update_quantities(ALICE, &[wish(TYPE_A, 1, None)], true, true, &c, &mut s, NOW).unwrap();
    let tickets = lines_of(&s, &cart, OrderItemTypes::Tickets);
    assert_eq!(tickets.len(), 1);
    assert_eq!(tickets[0].unit_price_in_cents, 800);
    assert_eq!(tickets[0].ticket_pricing_id, Some(25));
}

#[test]
fn only_a_draft_is_updated() {
    let c = catalog();
    let mut s = store();
    let mut order = paid_order(&c, &mut s, ALICE, &[wish(TYPE_A, 1, None)]);
    let before = s.snapshot();
    let refused = order.update_quantities(ALICE, &[wish(TYPE_A, 2, None)], false, false, &c, &mut s, NOW);
    assert_eq!(refused, Err(DatabaseError::OrderNotDraft));
    assert_eq!(refused.unwrap_err().error_code(), ErrorCode::ValidationError);
    assert_eq!(s, before);
}

#[test]
fn codes_are_resolved_and_checked() {
    let c = catalog();
    let mut s = store();
    let mut cart = cart_for(ALICE, &mut s);
    let before = s.snapshot();
    assert_eq!(
        cart.update_quantities(ALICE, &[wish(TYPE_A, 1, Some("NOPE"))], false, false, &c, &mut s, NOW),
        Err(DatabaseError::RedemptionCodeInvalid)
    );
    assert_eq!(
        cart.update_quantities(ALICE, &[wish(TYPE_A, 1, Some("EXPIRED"))], false, false, &c, &mut s, NOW),
        Err(DatabaseError::CodeNotValid { code_id: CODE_EXPIRED, start_date: 0, end_date: NOW - 1 })
    );
    assert_eq!(
        cart.update_quantities(ALICE, &[wish(TYPE_A, 1, Some("ENDED"))], false, false, &c, &mut s, NOW),
        Err(DatabaseError::HoldNotValid { id: HOLD_ENDED, end_at: NOW - 1 })
    );
    assert_eq!(s, before);
    assert_eq!(DatabaseError::RedemptionCodeInvalid.error_code(), ErrorCode::ValidationError);
}

#[test]
fn a_code_is_found_whatever_its_case() {
    let c = catalog();
    let mut s = store();
    let mut cart = cart_for(ALICE, &mut s);
    cart.update_quantities(ALICE, &[wish(TYPE_A, 1, Some("access"))], false, false, &c, &mut s, NOW).unwrap();
    let tickets = lines_of(&s, &cart, OrderItemTypes::Tickets);
    assert_eq!(tickets[0].code_id, Some(CODE_ACCESS));
    assert_eq!(tickets[0].hold_id, None);
    assert_eq!(tickets[0].unit_price_in_cents, 800);
}

#[test]
fn a_discount_hold_takes_its_cents_off() {
    let c = catalog();
    let mut s = store();
    let mut cart = cart_for(ALICE, &mut s);
    cart.update_quantities(ALICE, &[wish(TYPE_A, 2, Some("HOLD10"))], false, false, &c, &mut s, NOW).unwrap();
    let tickets = lines_of(&s, &cart, OrderItemTypes::Tickets);
    assert_eq!(tickets[0].hold_id, Some(HOLD_DISCOUNT));
    assert_eq!(tickets[0].unit_price_in_cents, 700);
    // the tickets come out of the hold
    let taken: Vec<u128> = s.ticket_instances.iter().filter(|t| t.order_item_id == Some(tickets[0].id)).map(|t| t.id).collect();
    assert_eq!(taken, vec![1300, 1301]);
    assert_eq!(with_status(&s, TYPE_A, TicketInstanceStatus::Available), 5);
}

#[test]
fn a_comp_hold_makes_the_ticket_free_and_brings_no_fee() {
    let c = catalog();
    let mut s = store();
    let mut cart = cart_for(ALICE, &mut s);
    cart.update_quantities(ALICE, &[wish(TYPE_A, 1, Some("COMPED"))], false, false, &c, &mut s, NOW).unwrap();
    let tickets = lines_of(&s, &cart, OrderItemTypes::Tickets);
    assert_eq!(tickets[0].unit_price_in_cents, 0);
    assert_eq!(s.order_items.len(), 1);
    assert_eq!(cart.calculate_total(&s), Ok(0));
}

#[test]
fn a_line_and_its_wish_match_by_code_too() {
    let c = catalog();
    let mut s = store();
    let mut cart = cart_for(ALICE, &mut s);
    cart.update_quantities(ALICE, &[wish(TYPE_A, 1, None)], false, false, &c, &mut s, NOW).unwrap();
    // the same ticket type under a hold is another line
    cart.update_quantities(ALICE, &[wish(TYPE_A, 1, Some("HOLD10"))], false, false, &c, &mut s, NOW).unwrap();
    let tickets = lines_of(&s, &cart, OrderItemTypes::Tickets);
    assert_eq!(tickets.len(), 2);
    assert_eq!(tickets[0].hold_id, None);
    assert_eq!(tickets[1].hold_id, Some(HOLD_DISCOUNT));
    // a wish of zero for a line removes it
    cart.update_quantities(ALICE, &[wish(TYPE_A, 0, None)], false, false, &c, &mut s, NOW).unwrap();
    let tickets = lines_of(&s, &cart, OrderItemTypes::Tickets);
    assert_eq!(tickets.len(), 1);
    assert_eq!(tickets[0].hold_id, Some(HOLD_DISCOUNT));
}

#[test]
fn more_at_the_same_price_grows_the_line() {
    let c = catalog();
    let mut s = store();
    let mut cart = cart_for(ALICE, &mut s);
    cart.update_quantities(ALICE, &[wish(TYPE_A, 1, None)], false, false, &c, &mut s, NOW).unwrap();
    let line = lines_of(&s, &cart, OrderItemTypes::Tickets)[0];
    cart.update_quantities(ALICE, &[wish(TYPE_A, 4, None)], false, false, &c, &mut s, NOW).unwrap();
    let tickets = lines_of(&s, &cart, OrderItemTypes::Tickets);
    assert_eq!(tickets.len(), 1);
    assert_eq!(tickets[0].id, line.id);
    assert_eq!(tickets[0].quantity, 4);
    assert_eq!(held_by(&s, &tickets[0], TicketInstanceStatus::Reserved), 4);
}

#[test]
fn more_at_a_new_price_replaces_the_line() {
    let mut c = catalog();
    let mut s = store();
    let mut cart = cart_for(ALICE, &mut s);
    cart.update_quantities(ALICE, &[wish(TYPE_A, 1, None)], false, false, &c, &mut s, NOW).unwrap();
    let old_line = lines_of(&s, &cart, OrderItemTypes::Tickets)[0];
    c.ticket_pricing[0].end_date = NOW + 10;
    c.ticket_pricing.push(TicketPricing {
        id: 26,
        ticket_type_id: TYPE_A,
        price_in_cents: 1200,
        start_date: NOW + 10,
        end_date: NOW * 2,
        is_box_office_only: false,
        status: TicketPricingStatus::Published,
    });
    cart.update_quantities(ALICE, &[wish(TYPE_A, 3, None)], false, false, &c, &mut s, NOW + 20).unwrap();
    let tickets = lines_of(&s, &cart, OrderItemTypes::Tickets);
    assert_eq!(tickets.len(), 1);
    assert_ne!(tickets[0].id, old_line.id);
    assert_eq!(tickets[0].quantity, 3);
    assert_eq!(tickets[0].unit_price_in_cents, 1200);
    assert_eq!(tickets[0].ticket_pricing_id, Some(26));
    assert_eq!(held_by(&s, &tickets[0], TicketInstanceStatus::Reserved), 3);
    assert_eq!(held_by(&s, &old_line, TicketInstanceStatus::Reserved), 0);
    assert_eq!(with_status(&s, TYPE_A, TicketInstanceStatus::Available), 2);
}

#[test]
fn a_cart_holds_tickets_of_one_event() {
    let c = catalog();
    let mut s = store();
    let mut cart = cart_for(ALICE, &mut s);
    cart.update_quantities(ALICE, &[wish(TYPE_A, 1, None)], false, false, &c, &mut s, NOW).unwrap();
    let before = s.snapshot();
    let refused = cart.update_quantities(ALICE, &[wish(TYPE_C, 1, None)], false, false, &c, &mut s, NOW);
    assert_eq!(refused, Err(DatabaseError::CartEventLimitReached { order_id: cart.id }));
    assert_eq!(s, before);
    assert!(Order::order_contains_items_from_only_one_event(cart.id, &s));
    assert_eq!(cart.validate_record(&s), Ok(()));
}

#[test]
fn a_missing_price_or_ticket_type_is_reported() {
    let mut c = catalog();
    let mut s = store();
    let mut cart = cart_for(ALICE, &mut s);
    assert_eq!(
        cart.update_quantities(ALICE, &[wish(99, 1, None)], false, false, &c, &mut s, NOW),
        Err(DatabaseError::NoTicketPricing { ticket_type_id: 99 })
    );
    c.ticket_pricing.push(pricing(27, 99, 100, false));
    assert_eq!(
        cart.update_quantities(ALICE, &[wish(99, 1, None)], false, false, &c, &mut s, NOW),
        Err(DatabaseError::NotFound { table: Tables::TicketTypes, id: 99 })
    );
    c.ticket_pricing.push(pricing(28, TYPE_A, 900, false));
    assert_eq!(
        cart.update_quantities(ALICE, &[wish(TYPE_A, 1, None)], false, false, &c, &mut s, NOW),
        Err(DatabaseError::AmbiguousTicketPricing { ticket_type_id: TYPE_A })
    );
    assert_eq!(DatabaseError::NoTicketPricing { ticket_type_id: 99 }.error_code(), ErrorCode::NoResults);
    assert_eq!(
        DatabaseError::AmbiguousTicketPricing { ticket_type_id: 99 }.error_code(),
        ErrorCode::MultipleResultsWhenOneExpected
    );
}

#[test]
fn a_store_without_identifiers_refuses_new_rows() {
    let c = catalog();
    let mut s = store();
    let mut cart = cart_for(ALICE, &mut s);
    s.next_id = u128::MAX;
    let before = s.snapshot();
    let refused = cart.update_quantities(ALICE, &[wish(TYPE_A, 1, None)], false, false, &c, &mut s, NOW);
    assert_eq!(refused, Err(DatabaseError::IdentifiersExhausted));
    assert_eq!(refused.unwrap_err().error_code(), ErrorCode::InternalError);
    assert_eq!(s, before);
    assert_eq!(s.allocate_id(), Err(DatabaseError::IdentifiersExhausted));
}

#[test]
fn the_cart_of_a_user_is_made_once() {
    let mut s = store();
    let alice = s.users[0];
    let cart = Order::find_or_create_cart(&alice, &mut s, NOW).unwrap();
    assert_eq!(cart.id, 5000);
    assert_eq!(cart.user_id, ALICE);
    assert_eq!(cart.status, OrderStatus::Draft);
    assert_eq!(cart.order_type, OrderTypes::Cart);
    assert_eq!(cart.version, 0);
    assert_eq!(cart.expires_at, None);
    assert_eq!(s.users[0].last_cart_id, Some(cart.id));
    assert_eq!(s.users[0].updated_at, NOW);
    assert_eq!(s.orders.len(), 1);
    assert_eq!(s.domain_events.len(), 1);
    assert_eq!(s.domain_events[0].event_type, DomainEventTypes::OrderCreated);
    assert_eq!(s.domain_events[0].main_id, Some(cart.id));
    assert_eq!(s.domain_events[0].user_id, Some(ALICE));
    // found again, not made again
    let again = Order::find_or_create_cart(&alice, &mut s, NOW + 1).unwrap();
    assert_eq!(again, cart);
    assert_eq!(s.orders.len(), 1);
    assert_eq!(s.domain_events.len(), 1);
    assert_eq!(Order::find_cart_for_user(ALICE, &s, NOW), Some(cart));
    assert_eq!(Order::find_cart_for_user(BOB, &s, NOW), None);
}

#[test]
fn a_stale_user_row_loses_the_race_for_the_cart() {
    let mut s = store();
    let alice = s.users[0];
    let c = catalog();
    let mut cart = Order::find_or_create_cart(&alice, &mut s, NOW).unwrap();
    cart.update_quantities(ALICE, &[wish(TYPE_A, 1, None)], false, false, &c, &mut s, NOW).unwrap();
    // the cart runs out; the caller still holds the user as first read
    let later = NOW + QUARTER_HOUR + 1;
    let before = s.snapshot();
    assert_eq!(Order::find_or_create_cart(&alice, &mut s, later), Err(DatabaseError::LastCartChanged));
    assert_eq!(DatabaseError::LastCartChanged.error_code(), ErrorCode::ConcurrencyError);
    assert_eq!(s, before);
    // with the user read again a new cart is made
    let fresh = s.users[0];
    let second = Order::find_or_create_cart(&fresh, &mut s, later).unwrap();
    assert_ne!(second.id, cart.id);
    assert_eq!(s.users[0].last_cart_id, Some(second.id));
}

#[test]
fn a_live_cart_that_the_user_does_not_point_to_is_a_race() {
    let mut s = store();
    let c = catalog();
    let alice = s.users[0];
    let mut cart = Order::find_or_create_cart(&alice, &mut s, NOW).unwrap();
    cart.update_quantities(ALICE, &[wish(TYPE_A, 1, None)], false, false, &c, &mut s, NOW).unwrap();
    s.users[0].last_cart_id = None;
    let fresh = s.users[0];
    let before = s.snapshot();
    assert_eq!(Order::find_or_create_cart(&fresh, &mut s, NOW), Err(DatabaseError::CartCreationRace));
    assert_eq!(DatabaseError::CartCreationRace.error_code(), ErrorCode::ConcurrencyError);
    assert_eq!(s, before);
}

#[test]
fn update_last_cart_checks_what_was_read() {
    let mut s = store();
    let alice = s.users[0];
    alice.update_last_cart(Some(9), &mut s, NOW).unwrap();
    assert_eq!(s.users[0].last_cart_id, Some(9));
    assert_eq!(s.users[0].updated_at, NOW);
    assert_eq!(alice.update_last_cart(Some(10), &mut s, NOW), Err(DatabaseError::LastCartChanged));
    assert_eq!(s.users[0].last_cart_id, Some(9));
    let nobody = User { id: 99, last_cart_id: None, updated_at: 0 };
    assert_eq!(nobody.update_last_cart(None, &mut s, NOW), Err(DatabaseError::LastCartChanged));
}

#[test]
fn expiry_is_set_and_moves_the_reservations() {
    let c = catalog();
    let mut s = store();
    let mut cart = cart_for(ALICE, &mut s);
    cart.update_quantities(ALICE, &[wish(TYPE_A, 2, None)], false, false, &c, &mut s, NOW).unwrap();
    let events = s.domain_events.len();
    cart.set_expiry(Some(ALICE), Some(NOW + 77), &mut s, NOW + 1).unwrap();
    assert_eq!(cart.expires_at, Some(NOW + 77));
    assert_eq!(cart.updated_at, NOW + 1);
    let line = lines_of(&s, &cart, OrderItemTypes::Tickets)[0];
    for t in s.ticket_instances.iter().filter(|t| t.order_item_id == Some(line.id)) {
        assert_eq!(t.reserved_until, Some(NOW + 77));
    }
    assert_eq!(s.domain_events.len(), events + 1);
    assert_eq!(
        s.domain_events[events].event_data,
        EventData::ExpiryChanged { old_expires_at: Some(NOW + QUARTER_HOUR), new_expires_at: Some(NOW + 77) }
    );
    // the default is a quarter of an hour
    cart.set_expiry(None, None, &mut s, NOW + 2).unwrap();
    assert_eq!(cart.expires_at, Some(NOW + 2 + QUARTER_HOUR));
    // a cart that ran out is not extended
    let before = s.snapshot();
    let late = NOW + 3 + QUARTER_HOUR;
    assert_eq!(cart.set_expiry(None, None, &mut s, late), Err(DatabaseError::ExpiryUpdateRace));
    assert_eq!(DatabaseError::ExpiryUpdateRace.error_code(), ErrorCode::ConcurrencyError);
    assert_eq!(s, before);
    assert_eq!(cart.set_expiry(None, None, &mut s, i64::MAX), Err(DatabaseError::ArithmeticOverflow));
    // nor with a stale version
    let mut stale = cart.clone();
    stale.version -= 1;
    assert_eq!(stale.set_expiry(None, Some(5), &mut s, NOW), Err(DatabaseError::ExpiryUpdateRace));
}

#[test]
fn expiry_is_removed_from_an_empty_cart_only() {
    let c = catalog();
    let mut s = store();
    let mut cart = cart_for(ALICE, &mut s);
    cart.update_quantities(ALICE, &[wish(TYPE_A, 2, None)], false, false, &c, &mut s, NOW).unwrap();
    assert_eq!(cart.remove_expiry(ALICE, &mut s, NOW), Err(DatabaseError::ExpiryOfNonEmptyCart));
    assert_eq!(DatabaseError::ExpiryOfNonEmptyCart.error_code(), ErrorCode::BusinessProcessError);
    cart.clear_cart(&mut s, NOW).unwrap();
    assert!(cart.items(&s).is_empty());
    assert_eq!(with_status(&s, TYPE_A, TicketInstanceStatus::Available), 5);
    cart.remove_expiry(ALICE, &mut s, NOW + 1).unwrap();
    assert_eq!(cart.expires_at, None);
    assert_eq!(Order::find(cart.id, &s).unwrap().expires_at, None);
}

#[test]
fn items_are_deleted_from_drafts_only() {
    let c = catalog();
    let mut s = store();
    let mut cart = cart_for(ALICE, &mut s);
    cart.update_quantities(ALICE, &[wish(TYPE_A, 2, None)], false, false, &c, &mut s, NOW).unwrap();
    let line = lines_of(&s, &cart, OrderItemTypes::Tickets)[0];
    let mut paid = cart.clone();
    paid.status = OrderStatus::Paid;
    let before = s.snapshot();
    assert_eq!(paid.destroy_item(line.id, &mut s), Err(DatabaseError::DeleteFromNonDraftOrder));
    assert_eq!(paid.clear_cart(&mut s, NOW), Err(DatabaseError::DeleteFromNonDraftOrder));
    assert_eq!(DatabaseError::DeleteFromNonDraftOrder.error_code(), ErrorCode::BusinessProcessError);
    assert_eq!(s, before);
    // the line goes with its fee
    cart.destroy_item(line.id, &mut s).unwrap();
    assert!(s.order_items.iter().all(|i| i.id != line.id && i.parent_id != Some(line.id)));
}

#[test]
fn a_new_expiry_reaches_every_ticket_of_the_order() {
    let c = catalog();
    let mut s = store();
    let mut order = paid_order(&c, &mut s, ALICE, &[wish(TYPE_A, 2, None)]);
    let line = lines_of(&s, &order, OrderItemTypes::Tickets)[0];
    assert_eq!(held_by(&s, &line, TicketInstanceStatus::Purchased), 2);
    order.set_expiry(Some(ALICE), Some(NOW * 2), &mut s, NOW + 1).unwrap();
    for t in s.ticket_instances.iter() {
        if t.order_item_id == Some(line.id) {
            assert_eq!(t.status, TicketInstanceStatus::Purchased);
            assert_eq!(t.reserved_until, Some(NOW * 2));
        } else {
            assert_eq!(t.reserved_until, None);
        }
    }
    // the version is not counted up by a new expiry
    assert_eq!(Order::find(order.id, &s).unwrap().version, order.version);
}

#[test]
fn lines_that_cannot_be_bought_are_cleared() {
    let c = catalog();
    let mut s = store();
    let mut cart = cart_for(ALICE, &mut s);
    cart.update_quantities(
        ALICE,
        &[wish(TYPE_A, 2, None), wish(TYPE_B, 1, None), wish(TYPE_A, 1, Some("ACCESS"))],
        false,
        false,
        &c,
        &mut s,
        NOW,
    )
    .unwrap();
    let tickets = lines_of(&s, &cart, OrderItemTypes::Tickets);
    assert!(cart.items_valid_for_purchase(&c, &s, NOW));
    assert!(cart.order_items_in_invalid_state(&c, &s, NOW).is_empty());
    assert_eq!(tickets[0].cart_item_status(&c, &s, NOW), CartItemStatus::Valid);
    // a ticket of the second line is declared void, one of the first is taken away
    let of_second = s.ticket_instances.iter().position(|t| t.order_item_id == Some(tickets[1].id)).unwrap();
    s.ticket_instances[of_second].status = TicketInstanceStatus::Nullified;
    let of_first = s.ticket_instances.iter().position(|t| t.order_item_id == Some(tickets[0].id)).unwrap();
    s.ticket_instances[of_first] = ticket(1000, TYPE_A, None);
    assert_eq!(tickets[0].cart_item_status(&c, &s, NOW), CartItemStatus::TicketNotReserved);
    assert_eq!(tickets[1].cart_item_status(&c, &s, NOW), CartItemStatus::TicketNullified);
    assert_eq!(tickets[2].cart_item_status(&c, &s, NOW), CartItemStatus::Valid);
    assert_eq!(cart.order_items_in_invalid_state(&c, &s, NOW), vec![tickets[0], tickets[1]]);
    assert!(!cart.items_valid_for_purchase(&c, &s, NOW));
    // once the code has run out the third line is invalid too; past the expiry nothing is held
    assert_eq!(tickets[2].cart_item_status(&c, &s, NOW * 2 + 1), CartItemStatus::CodeExpired);
    assert_eq!(tickets[2].cart_item_status(&c, &s, NOW + QUARTER_HOUR), CartItemStatus::TicketNotReserved);
    let shown = cart.items_for_display(&c, &s, NOW);
    assert_eq!(shown.len(), s.order_items.len());
    assert_eq!(shown[0].cart_item_status, Some(CartItemStatus::TicketNotReserved));
    assert_eq!(shown[0].id, tickets[0].id);
    assert!(shown.iter().filter(|i| i.item_type != OrderItemTypes::Tickets).all(|i| i.cart_item_status.is_none()));

    // only a draft is cleared, and only with the version that the store holds
    let mut stale = cart.clone();
    stale.version -= 1;
    let before = s.snapshot();
    assert_eq!(stale.clear_invalid_items(&c, &mut s, NOW), Err(DatabaseError::OrderVersionMismatch));
    let mut paid = cart.clone();
    paid.status = OrderStatus::Paid;
    assert_eq!(paid.clear_invalid_items(&c, &mut s, NOW), Err(DatabaseError::OrderNotDraft));
    assert_eq!(s, before);

    let version = cart.version;
    cart.clear_invalid_items(&c, &mut s, NOW).unwrap();
    assert_eq!(cart.version, version + 1);
    let left = lines_of(&s, &cart, OrderItemTypes::Tickets);
    assert_eq!(left, vec![tickets[2]]);
    assert!(s.order_items.iter().all(|i| i.parent_id != Some(tickets[0].id) && i.parent_id != Some(tickets[1].id)));
    // what the cleared lines held is free again; the void ticket stays void
    assert_eq!(held_by(&s, &tickets[0], TicketInstanceStatus::Reserved), 0);
    assert_eq!(s.ticket_instances[of_second].status, TicketInstanceStatus::Nullified);
    assert!(cart.items_valid_for_purchase(&c, &s, NOW));
}

#[test]
fn a_line_under_a_hold_that_ended_cannot_be_bought() {
    let mut c = catalog();
    let mut s = store();
    let mut cart = cart_for(ALICE, &mut s);
    cart.update_quantities(ALICE, &[wish(TYPE_A, 1, Some("HOLD10"))], false, false, &c, &mut s, NOW).unwrap();
    let line = lines_of(&s, &cart, OrderItemTypes::Tickets)[0];
    assert_eq!(line.cart_item_status(&c, &s, NOW), CartItemStatus::Valid);
    c.holds[0].end_at = Some(NOW - 1);
    assert_eq!(line.cart_item_status(&c, &s, NOW), CartItemStatus::HoldExpired);
}
