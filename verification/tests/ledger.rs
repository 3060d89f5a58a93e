#![allow(dead_code)]
#![allow(unused_imports)]

use ticketing_core::errors::{DatabaseError, ErrorCode};
use ticketing_core::model::{
    Code, DomainAction, DomainEvent, DomainEventTicket, Event, EventData, FeeScheduleRange, Hold,
    NewPayment, Order, OrderItem, Payment, RedeemKey, RefundItem, RefundedTicket, TicketInstance,
    TicketPricing, TicketType, UpdateOrderItem, User,
};
use ticketing_core::store::{Catalog, Store};
use ticketing_core::types::{
    CartItemStatus, CodeTypes, DomainActionStatus, DomainActionTypes, DomainEventTypes, ExternalPaymentType,
    HoldTypes, OrderItemTypes, OrderStatus, OrderTypes, PaymentMethods, PaymentProviders,
    PaymentStatus, RedeemResults, Tables, TicketInstanceStatus, TicketPricingStatus,
};

const NOW: i64 = 1_000_000_000_000;
const QUARTER_HOUR: i64 = 15 * 60 * 1_000_000;
const EVENT: u128 = 100;
const OTHER_EVENT: u128 = 101;
const TYPE_A: u128 = 10;
const TYPE_B: u128 = 11;
const TYPE_C: u128 = 12;
const PRICING_A: u128 = 20;
const PRICING_B: u128 = 21;
const PRICING_C: u128 = 22;
const SCHEDULE: u128 = 900;
const HOLD_DISCOUNT: u128 = 40;
const HOLD_COMP: u128 = 41;
const HOLD_ENDED: u128 = 42;
const CODE_ACCESS: u128 = 50;
const CODE_CENTS: u128 = 51;
const CODE_PERCENT: u128 = 52;
const CODE_EXPIRED: u128 = 53;
const ALICE: u128 = 1;
const BOB: u128 = 2;

fn ticket(id: u128, ticket_type_id: u128, hold_id: Option<u128>) -> TicketInstance {
    TicketInstance {
        id,
        ticket_type_id,
        hold_id,
        order_item_id: None,
        owner_id: None,
        reserved_until: None,
        status: TicketInstanceStatus::Available,
        transferred: false,
    }
}

fn pricing(id: u128, ticket_type_id: u128, price_in_cents: i64, box_office: bool) -> TicketPricing {
    TicketPricing {
        id,
        ticket_type_id,
        price_in_cents,
        start_date: 0,
        end_date: NOW * 2,
        is_box_office_only: box_office,
        status: TicketPricingStatus::Published,
    }
}

fn code(id: u128, text: &str, code_type: CodeTypes, cents: Option<i64>, percent: Option<i64>, end: i64) -> Code {
    Code {
        id,
        event_id: EVENT,
        code_type,
        redemption_code: text.to_string(),
        max_uses: 100,
        discount_in_cents: cents,
        discount_as_percentage: percent,
        start_date: 0,
        end_date: end,
        max_tickets_per_user: None,
    }
}

fn hold(id: u128, text: &str, hold_type: HoldTypes, cents: Option<i64>, max_per_user: Option<i64>, end_at: Option<i64>) -> Hold {
    Hold {
        id,
        event_id: EVENT,
        ticket_type_id: TYPE_A,
        redemption_code: text.to_string(),
        hold_type,
        discount_in_cents: cents,
        max_per_user,
        end_at,
    }
}

fn catalog() -> Catalog {
    let mut c = Catalog::new();
    c.events.push(Event { id: EVENT, fee_schedule_id: Some(SCHEDULE), fee_in_cents: 50, company_fee_in_cents: 20, client_fee_in_cents: 30 });
    c.events.push(Event { id: OTHER_EVENT, fee_schedule_id: None, fee_in_cents: 0, company_fee_in_cents: 0, client_fee_in_cents: 0 });
    c.ticket_types.push(TicketType { id: TYPE_A, event_id: EVENT, limit_per_person: 0 });
    c.ticket_types.push(TicketType { id: TYPE_B, event_id: EVENT, limit_per_person: 2 });
    c.ticket_types.push(TicketType { id: TYPE_C, event_id: OTHER_EVENT, limit_per_person: 0 });
    c.ticket_pricing.push(pricing(PRICING_A, TYPE_A, 1000, false));
    c.ticket_pricing.push(pricing(PRICING_B, TYPE_B, 2000, false));
    c.ticket_pricing.push(pricing(PRICING_C, TYPE_C, 500, false));
    c.fee_schedule_ranges.push(FeeScheduleRange { id: 30, fee_schedule_id: SCHEDULE, min_price_in_cents: 0, fee_in_cents: 100, company_fee_in_cents: 40, client_fee_in_cents: 60 });
    c.fee_schedule_ranges.push(FeeScheduleRange { id: 31, fee_schedule_id: SCHEDULE, min_price_in_cents: 1500, fee_in_cents: 150, company_fee_in_cents: 60, client_fee_in_cents: 90 });
    c.holds.push(hold(HOLD_DISCOUNT, "HOLD10", HoldTypes::Discount, Some(300), Some(2), None));
    c.holds.push(hold(HOLD_COMP, "COMPED", HoldTypes::Comp, None, None, None));
    c.holds.push(hold(HOLD_ENDED, "ENDED", HoldTypes::Discount, Some(1), None, Some(NOW - 1)));
    c.codes.push(code(CODE_ACCESS, "ACCESS", CodeTypes::Access, Some(200), None, NOW * 2));
    c.codes.push(code(CODE_CENTS, "TENOFF", CodeTypes::Discount, Some(100), None, NOW * 2));
    c.codes.push(code(CODE_PERCENT, "HALF", CodeTypes::Discount, None, Some(50), NOW * 2));
    c.codes.push(code(CODE_EXPIRED, "EXPIRED", CodeTypes::Access, Some(1), None, NOW - 1));
    c
}

fn store() -> Store {
    let mut s = Store::new(5000);
    s.users.push(User { id: ALICE, last_cart_id: None, updated_at: 7 });
    s.users.push(User { id: BOB, last_cart_id: None, updated_at: 7 });
    for i in 0..5 {
        s.ticket_instances.push(ticket(1000 + i, TYPE_A, None));
    }
    for i in 0..3 {
        s.ticket_instances.push(ticket(1100 + i, TYPE_B, None));
    }
    s.ticket_instances.push(ticket(1200, TYPE_C, None));
    s.ticket_instances.push(ticket(1300, TYPE_A, Some(HOLD_DISCOUNT)));
    s.ticket_instances.push(ticket(1301, TYPE_A, Some(HOLD_DISCOUNT)));
    s.ticket_instances.push(ticket(1302, TYPE_A, Some(HOLD_DISCOUNT)));
    s.ticket_instances.push(ticket(1400, TYPE_A, Some(HOLD_COMP)));
    s
}

fn cart_for(user_id: u128, s: &mut Store) -> Order {
    let user = *s.users.iter().find(|u| u.id == user_id).unwrap();
    Order::find_or_create_cart(&user, s, NOW).unwrap()
}

fn wish(ticket_type_id: u128, quantity: u32, text: Option<&str>) -> UpdateOrderItem {
    UpdateOrderItem { ticket_type_id, quantity, redemption_code: text.map(|t| t.to_string()) }
}

fn lines_of(s: &Store, order: &Order, item_type: OrderItemTypes) -> Vec<OrderItem> {
    s.order_items.iter().filter(|i| i.order_id == order.id && i.item_type == item_type).cloned().collect()
}

fn held_by(s: &Store, item: &OrderItem, status: TicketInstanceStatus) -> usize {
    s.ticket_instances.iter().filter(|t| t.order_item_id == Some(item.id) && t.status == status).count()
}

fn with_status(s: &Store, ticket_type_id: u128, status: TicketInstanceStatus) -> usize {
    s.ticket_instances.iter().filter(|t| t.ticket_type_id == ticket_type_id && t.hold_id.is_none() && t.status == status).count()
}

fn paid_order(c: &Catalog, s: &mut Store, user_id: u128, wishes: &[UpdateOrderItem]) -> Order {
    let mut order = cart_for(user_id, s);
    order.update_quantities(user_id, wishes, false, false, c, s, NOW).unwrap();
    let total = order.calculate_total(s).unwrap();
    order
        .add_external_payment(Some("till".to_string()), ExternalPaymentType::Cash, user_id, total, c, s, NOW)
        .unwrap();
    assert_eq!(order.status, OrderStatus::Paid);
    order
}

fn line(id: u128) -> OrderItem {
    OrderItem {
        id,
        order_id: 1,
        item_type: OrderItemTypes::Tickets,
        ticket_type_id: Some(TYPE_A),
        event_id: Some(EVENT),
        quantity: 0,
        unit_price_in_cents: 0,
        ticket_pricing_id: None,
        fee_schedule_range_id: None,
        parent_id: None,
        hold_id: None,
        code_id: None,
        company_fee_in_cents: 0,
        client_fee_in_cents: 0,
        refunded_quantity: 0,
    }
}

fn census(s: &Store, ticket_type_id: u128, now: i64) -> (usize, usize, usize, usize, usize) {
    let mut free = 0;
    let mut held = 0;
    let mut bought = 0;
    let mut used = 0;
    let mut void = 0;
    for t in s.ticket_instances.iter().filter(|t| t.ticket_type_id == ticket_type_id) {
        match t.status {
            TicketInstanceStatus::Available => free += 1,
            TicketInstanceStatus::Reserved => {
                if t.reserved_until.map(|u| u < now).unwrap_or(false) {
                    free += 1
                } else {
                    held += 1
                }
            }
            TicketInstanceStatus::Purchased => bought += 1,
            TicketInstanceStatus::Redeemed => used += 1,
            TicketInstanceStatus::Nullified => void += 1,
        }
    }
    (free, held, bought, used, void)
}

#[test]
fn a_reservation_takes_the_first_free_tickets() {
    let mut s = store();
    TicketInstance::reserve_tickets(&line(1), Some(NOW + 10), TYPE_A, None, 2, &mut s, NOW).unwrap();
    let taken: Vec<u128> = s.ticket_instances.iter().filter(|t| t.order_item_id == Some(1)).map(|t| t.id).collect();
    assert_eq!(taken, vec![1000, 1001]);
    for t in s.ticket_instances.iter().filter(|t| t.order_item_id == Some(1)) {
        assert_eq!(t.status, TicketInstanceStatus::Reserved);
        assert_eq!(t.reserved_until, Some(NOW + 10));
    }
    assert_eq!(TicketInstance::count_available(TYPE_A, None, &s, NOW), 3);
    assert_eq!(TicketInstance::count_held(1, &s), 2);
    assert_eq!(TicketInstance::count_for_order_item(1, &s), 2);
}

#[test]
fn a_reservation_that_ran_out_is_free_again() {
    let mut s = store();
    TicketInstance::reserve_tickets(&line(1), Some(NOW + 10), TYPE_A, None, 5, &mut s, NOW).unwrap();
    assert_eq!(TicketInstance::count_available(TYPE_A, None, &s, NOW + 10), 0);
    assert_eq!(TicketInstance::count_available(TYPE_A, None, &s, NOW + 11), 5);
    TicketInstance::reserve_tickets(&line(2), None, TYPE_A, None, 2, &mut s, NOW + 11).unwrap();
    assert_eq!(TicketInstance::count_held(2, &s), 2);
    assert_eq!(TicketInstance::count_held(1, &s), 3);
    // a reservation without end never runs out
    assert_eq!(TicketInstance::count_available(TYPE_A, None, &s, i64::MAX), 3);
}

#[test]
fn out_of_stock_changes_nothing() {
    let mut s = store();
    let before = s.snapshot();
    assert_eq!(
        TicketInstance::reserve_tickets(&line(1), None, TYPE_A, None, 6, &mut s, NOW),
        Err(DatabaseError::OutOfStock { ticket_type_id: TYPE_A, hold_id: None, requested: 6 })
    );
    assert_eq!(s, before);
    // the tickets of a hold are for the hold only
    assert_eq!(
        TicketInstance::reserve_tickets(&line(1), None, TYPE_A, Some(HOLD_DISCOUNT), 4, &mut s, NOW),
        Err(DatabaseError::OutOfStock { ticket_type_id: TYPE_A, hold_id: Some(HOLD_DISCOUNT), requested: 4 })
    );
    TicketInstance::reserve_tickets(&line(1), None, TYPE_A, Some(HOLD_DISCOUNT), 3, &mut s, NOW).unwrap();
    assert_eq!(TicketInstance::count_available(TYPE_A, None, &s, NOW), 5);
}

#[test]
fn competing_requests_never_get_more_than_there_is() {
    let mut s = store();
    let asked = [2u32, 2, 2, 1, 1];
    let mut granted = 0;
    let mut refused = 0;
    for (i, q) in asked.iter().enumerate() {
        match TicketInstance::reserve_tickets(&line(i as u128 + 1), Some(NOW + 10), TYPE_A, None, *q, &mut s, NOW) {
            Ok(()) => granted += q,
            Err(e) => {
                assert_eq!(e, DatabaseError::OutOfStock { ticket_type_id: TYPE_A, hold_id: None, requested: *q });
                refused += 1;
            }
        }
    }
    assert_eq!(granted, 5);
    assert_eq!(refused, 2);
    assert_eq!(TicketInstance::count_available(TYPE_A, None, &s, NOW), 0);
}

#[test]
fn a_release_gives_back_what_was_held() {
    let mut s = store();
    TicketInstance::reserve_tickets(&line(1), None, TYPE_A, None, 3, &mut s, NOW).unwrap();
    let before = s.snapshot();
    assert_eq!(TicketInstance::release_tickets(&line(1), 4, &mut s), Err(DatabaseError::ReleaseCountMismatch));
    assert_eq!(DatabaseError::ReleaseCountMismatch.error_code(), ErrorCode::BusinessProcessError);
    assert_eq!(s, before);
    TicketInstance::release_tickets(&line(1), 2, &mut s).unwrap();
    assert_eq!(TicketInstance::count_held(1, &s), 1);
    assert_eq!(s.ticket_instances[0], ticket(1000, TYPE_A, None));
    assert_eq!(s.ticket_instances[1], ticket(1001, TYPE_A, None));
    assert_eq!(s.ticket_instances[2].order_item_id, Some(1));
}

#[test]
fn a_purchase_buys_what_the_line_holds() {
    let mut s = store();
    TicketInstance::reserve_tickets(&line(1), Some(NOW + 10), TYPE_A, None, 2, &mut s, NOW).unwrap();
    TicketInstance::reserve_tickets(&line(2), Some(NOW + 10), TYPE_A, None, 1, &mut s, NOW).unwrap();
    TicketInstance::mark_as_purchased(&line(1), ALICE, &mut s);
    let bought: Vec<&TicketInstance> = s.ticket_instances.iter().filter(|t| t.status == TicketInstanceStatus::Purchased).collect();
    assert_eq!(bought.len(), 2);
    assert!(bought.iter().all(|t| t.order_item_id == Some(1) && t.owner_id == Some(ALICE)));
    assert_eq!(TicketInstance::count_held(2, &s), 1);
    // bought tickets are not released with the held ones
    assert_eq!(TicketInstance::release_tickets(&line(1), 1, &mut s), Err(DatabaseError::ReleaseCountMismatch));
}

#[test]
fn the_end_of_a_reservation_moves() {
    let mut s = store();
    TicketInstance::reserve_tickets(&line(1), Some(NOW + 10), TYPE_A, None, 2, &mut s, NOW).unwrap();
    TicketInstance::reserve_tickets(&line(2), Some(NOW + 10), TYPE_A, None, 1, &mut s, NOW).unwrap();
    TicketInstance::update_reserved_time(&line(1), NOW + 99, &mut s);
    assert_eq!(s.ticket_instances[0].reserved_until, Some(NOW + 99));
    assert_eq!(s.ticket_instances[1].reserved_until, Some(NOW + 99));
    assert_eq!(s.ticket_instances[2].reserved_until, Some(NOW + 10));
    assert_eq!(s.ticket_instances[3].reserved_until, None);
}

#[test]
fn no_ticket_is_made_or_lost() {
    let mut s = store();
    s.ticket_instances[4].status = TicketInstanceStatus::Nullified;
    let total = s.ticket_instances.iter().filter(|t| t.ticket_type_id == TYPE_A).count();
    let check = |s: &Store, now: i64| {
        let (free, held, bought, used, void) = census(s, TYPE_A, now);
        assert_eq!(free + held + bought + used + void, total);
        assert_eq!(void, 1);
        assert!(held + bought <= total);
    };
    check(&s, NOW);
    TicketInstance::reserve_tickets(&line(1), Some(NOW + 10), TYPE_A, None, 3, &mut s, NOW).unwrap();
    check(&s, NOW);
    check(&s, NOW + 11);
    assert!(TicketInstance::reserve_tickets(&line(2), Some(NOW + 10), TYPE_A, None, 3, &mut s, NOW).is_err());
    check(&s, NOW);
    TicketInstance::release_tickets(&line(1), 1, &mut s).unwrap();
    check(&s, NOW);
    TicketInstance::mark_as_purchased(&line(1), ALICE, &mut s);
    check(&s, NOW);
    assert_eq!(census(&s, TYPE_A, NOW), (6, 0, 2, 0, 1));
}

#[test]
fn a_ticket_is_redeemed_once() {
    let mut c = catalog();
    let mut s = store();
    c.redeem_keys.push(RedeemKey { ticket_instance_id: 1000, redeem_key: "OPENSESAME".to_string() });
    let key = "OPENSESAME".to_string();
    // not bought yet
    assert_eq!(TicketInstance::redeem_ticket(1000, &key, BOB, &c, &mut s, NOW), Ok(RedeemResults::TicketInvalid));
    TicketInstance::reserve_tickets(&line(1), None, TYPE_A, None, 1, &mut s, NOW).unwrap();
    TicketInstance::mark_as_purchased(&line(1), ALICE, &mut s);
    // the wrong key
    let before = s.snapshot();
    assert_eq!(
        TicketInstance::redeem_ticket(1000, &"opensesame".to_string(), BOB, &c, &mut s, NOW),
        Ok(RedeemResults::TicketInvalid)
    );
    assert_eq!(s, before);
    assert_eq!(TicketInstance::redeem_ticket(1000, &key, BOB, &c, &mut s, NOW), Ok(RedeemResults::TicketRedeemSuccess));
    assert_eq!(s.ticket_instances[0].status, TicketInstanceStatus::Redeemed);
    let event = s.domain_events.last().unwrap();
    assert_eq!(event.event_type, DomainEventTypes::TicketInstanceRedeemed);
    assert_eq!(event.main_table, Tables::TicketInstances);
    assert_eq!(event.main_id, Some(1000));
    assert_eq!(event.user_id, Some(BOB));
    let before = s.snapshot();
    assert_eq!(TicketInstance::redeem_ticket(1000, &key, BOB, &c, &mut s, NOW), Ok(RedeemResults::TicketAlreadyRedeemed));
    assert_eq!(s, before);
    assert_eq!(
        TicketInstance::redeem_ticket(1, &key, BOB, &c, &mut s, NOW),
        Err(DatabaseError::NotFound { table: Tables::TicketInstances, id: 1 })
    );
    assert_eq!(DatabaseError::NotFound { table: Tables::TicketInstances, id: 1 }.error_code(), ErrorCode::NoResults);
}
