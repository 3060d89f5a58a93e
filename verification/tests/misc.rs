#![allow(dead_code)]
#![allow(unused_imports)]

use ticketing_core::errors::{DatabaseError, ErrorCode};
use ticketing_core::model::{
    Code, DomainAction, DomainEvent, DomainEventTicket, Event, EventData, FeeScheduleRange, Hold,
    NewPayment, Order, OrderItem, Payment, RedeemKey, RefundItem, RefundedTicket, TicketInstance,
    TicketPricing, TicketType, UpdateOrderItem, User,
};
use ticketing_core::store::{Catalog, Store};
use ticketing_core::types::{
    CartItemStatus, CodeTypes, DomainActionStatus, DomainActionTypes, DomainEventTypes, ExternalPaymentType,
    HoldTypes, OrderItemTypes, OrderStatus, OrderTypes, PaymentMethods, PaymentProviders,
    PaymentStatus, RedeemResults, Tables, TicketInstanceStatus, TicketPricingStatus,
};
use std::rc::Rc;
use ticketing_core::facebook::{FacebookClient, FacebookClientInner, MeEndpoint, BASE_URL};
use ticketing_core::display::{DisplayOrder, DisplayOrderItem};
use ticketing_core::identifiers::{id_from_str, id_to_string};
use ticketing_core::refresh_token::RefreshToken;
use ticketing_core::model::{NewOrder, UpdateOrderAttributes};
use ticketing_core::redemption::CodeAvailability;
use ticketing_core::roles::Roles;
use ticketing_core::redemption::{resolve, resolve_upper, Redemption};
use uuid::Uuid;

const NOW: i64 = 1_000_000_000_000;
const QUARTER_HOUR: i64 = 15 * 60 * 1_000_000;
const EVENT: u128 = 100;
const OTHER_EVENT: u128 = 101;
const TYPE_A: u128 = 10;
const TYPE_B: u128 = 11;
const TYPE_C: u128 = 12;
const PRICING_A: u128 = 20;
const PRICING_B: u128 = 21;
const PRICING_C: u128 = 22;
const SCHEDULE: u128 = 900;
const HOLD_DISCOUNT: u128 = 40;
const HOLD_COMP: u128 = 41;
const HOLD_ENDED: u128 = 42;
const CODE_ACCESS: u128 = 50;
const CODE_CENTS: u128 = 51;
const CODE_PERCENT: u128 = 52;
const CODE_EXPIRED: u128 = 53;
const ALICE: u128 = 1;
const BOB: u128 = 2;

fn ticket(id: u128, ticket_type_id: u128, hold_id: Option<u128>) -> TicketInstance {
    TicketInstance {
        id,
        ticket_type_id,
        hold_id,
        order_item_id: None,
        owner_id: None,
        reserved_until: None,
        status: TicketInstanceStatus::Available,
        transferred: false,
    }
}

fn pricing(id: u128, ticket_type_id: u128, price_in_cents: i64, box_office: bool) -> TicketPricing {
    TicketPricing {
        id,
        ticket_type_id,
        price_in_cents,
        start_date: 0,
        end_date: NOW * 2,
        is_box_office_only: box_office,
        status: TicketPricingStatus::Published,
    }
}

fn code(id: u128, text: &str, code_type: CodeTypes, cents: Option<i64>, percent: Option<i64>, end: i64) -> Code {
    Code {
        id,
        event_id: EVENT,
        code_type,
        redemption_code: text.to_string(),
        max_uses: 100,
        discount_in_cents: cents,
        discount_as_percentage: percent,
        start_date: 0,
        end_date: end,
        max_tickets_per_user: None,
    }
}

fn hold(id: u128, text: &str, hold_type: HoldTypes, cents: Option<i64>, max_per_user: Option<i64>, end_at: Option<i64>) -> Hold {
    Hold {
        id,
        event_id: EVENT,
        ticket_type_id: TYPE_A,
        redemption_code: text.to_string(),
        hold_type,
        discount_in_cents: cents,
        max_per_user,
        end_at,
    }
}

fn catalog() -> Catalog {
    let mut c = Catalog::new();
    c.events.push(Event { id: EVENT, fee_schedule_id: Some(SCHEDULE), fee_in_cents: 50, company_fee_in_cents: 20, client_fee_in_cents: 30 });
    c.events.push(Event { id: OTHER_EVENT, fee_schedule_id: None, fee_in_cents: 0, company_fee_in_cents: 0, client_fee_in_cents: 0 });
    c.ticket_types.push(TicketType { id: TYPE_A, event_id: EVENT, limit_per_person: 0 });
    c.ticket_types.push(TicketType { id: TYPE_B, event_id: EVENT, limit_per_person: 2 });
    c.ticket_types.push(TicketType { id: TYPE_C, event_id: OTHER_EVENT, limit_per_person: 0 });
    c.ticket_pricing.push(pricing(PRICING_A, TYPE_A, 1000, false));
    c.ticket_pricing.push(pricing(PRICING_B, TYPE_B, 2000, false));
    c.ticket_pricing.push(pricing(PRICING_C, TYPE_C, 500, false));
    c.fee_schedule_ranges.push(FeeScheduleRange { id: 30, fee_schedule_id: SCHEDULE, min_price_in_cents: 0, fee_in_cents: 100, company_fee_in_cents: 40, client_fee_in_cents: 60 });
    c.fee_schedule_ranges.push(FeeScheduleRange { id: 31, fee_schedule_id: SCHEDULE, min_price_in_cents: 1500, fee_in_cents: 150, company_fee_in_cents: 60, client_fee_in_cents: 90 });
    c.holds.push(hold(HOLD_DISCOUNT, "HOLD10", HoldTypes::Discount, Some(300), Some(2), None));
    c.holds.push(hold(HOLD_COMP, "COMPED", HoldTypes::Comp, None, None, None));
    c.holds.push(hold(HOLD_ENDED, "ENDED", HoldTypes::Discount, Some(1), None, Some(NOW - 1)));
    c.codes.push(code(CODE_ACCESS, "ACCESS", CodeTypes::Access, Some(200), None, NOW * 2));
    c.codes.push(code(CODE_CENTS, "TENOFF", CodeTypes::Discount, Some(100), None, NOW * 2));
    c.codes.push(code(CODE_PERCENT, "HALF", CodeTypes::Discount, None, Some(50), NOW * 2));
    c.codes.push(code(CODE_EXPIRED, "EXPIRED", CodeTypes::Access, Some(1), None, NOW - 1));
    c
}

fn store() -> Store {
    let mut s = Store::new(5000);
    s.users.push(User { id: ALICE, last_cart_id: None, updated_at: 7 });
    s.users.push(User { id: BOB, last_cart_id: None, updated_at: 7 });
    for i in 0..5 {
        s.ticket_instances.push(ticket(1000 + i, TYPE_A, None));
    }
    for i in 0..3 {
        s.ticket_instances.push(ticket(1100 + i, TYPE_B, None));
    }
    s.ticket_instances.push(ticket(1200, TYPE_C, None));
    s.ticket_instances.push(ticket(1300, TYPE_A, Some(HOLD_DISCOUNT)));
    s.ticket_instances.push(ticket(1301, TYPE_A, Some(HOLD_DISCOUNT)));
    s.ticket_instances.push(ticket(1302, TYPE_A, Some(HOLD_DISCOUNT)));
    s.ticket_instances.push(ticket(1400, TYPE_A, Some(HOLD_COMP)));
    s
}

fn cart_for(user_id: u128, s: &mut Store) -> Order {
    let user = *s.users.iter().find(|u| u.id == user_id).unwrap();
    Order::find_or_create_cart(&user, s, NOW).unwrap()
}

fn wish(ticket_type_id: u128, quantity: u32, text: Option<&str>) -> UpdateOrderItem {
    UpdateOrderItem { ticket_type_id, quantity, redemption_code: text.map(|t| t.to_string()) }
}

fn lines_of(s: &Store, order: &Order, item_type: OrderItemTypes) -> Vec<OrderItem> {
    s.order_items.iter().filter(|i| i.order_id == order.id && i.item_type == item_type).cloned().collect()
}

fn held_by(s: &Store, item: &OrderItem, status: TicketInstanceStatus) -> usize {
    s.ticket_instances.iter().filter(|t| t.order_item_id == Some(item.id) && t.status == status).count()
}

fn with_status(s: &Store, ticket_type_id: u128, status: TicketInstanceStatus) -> usize {
    s.ticket_instances.iter().filter(|t| t.ticket_type_id == ticket_type_id && t.hold_id.is_none() && t.status == status).count()
}

fn paid_order(c: &Catalog, s: &mut Store, user_id: u128, wishes: &[UpdateOrderItem]) -> Order {
    let mut order = cart_for(user_id, s);
    order.update_quantities(user_id, wishes, false, false, c, s, NOW).unwrap();
    let total = order.calculate_total(s).unwrap();
    order
        .add_external_payment(Some("till".to_string()), ExternalPaymentType::Cash, user_id, total, c, s, NOW)
        .unwrap();
    assert_eq!(order.status, OrderStatus::Paid);
    order
}

#[test]
fn parse_order_number() {
    let id = Uuid::parse_str("01234567-1234-1234-1234-1234567890ab").unwrap();
    assert_eq!("567890ab".to_string(), Order::parse_order_number(id.as_u128()));
}

#[test]
fn the_order_number_is_the_end_of_the_identifier() {
    assert_eq!(Order::parse_order_number(0), "00000000");
    assert_eq!(Order::parse_order_number(u128::MAX), "ffffffff");
    assert_eq!(Order::parse_order_number(0x1_0000_00af), "000000af");
    assert_eq!(id_to_string(0xa1a2a3a4b1b2c1c2d1d2d3d4d5d6d7d8), "a1a2a3a4-b1b2-c1c2-d1d2-d3d4d5d6d7d8");
    let mut s = store();
    let cart = cart_for(ALICE, &mut s);
    assert_eq!(cart.order_number(), "00001388");
}

#[test]
fn every_endpoint_shares_the_client() {
    let client = FacebookClient::from_access_token("token".to_string());
    assert_eq!(client.base_url(), "https://graph.facebook.com");
    assert_eq!(BASE_URL, "https://graph.facebook.com");
    assert_eq!(client.inner_client.app_access_token, "token");
    assert!(Rc::ptr_eq(&client.inner_client, &client.official_events.client));
    assert!(Rc::ptr_eq(&client.inner_client, &client.me.accounts.client));
    let inner = Rc::new(FacebookClientInner { base_url: "x", app_access_token: "y".to_string() });
    let me = MeEndpoint::new(inner.clone());
    assert!(Rc::ptr_eq(&inner, &me.accounts.client));
}

#[test]
fn a_code_resolves_to_a_hold_before_a_code() {
    let mut c = catalog();
    c.codes.push(code(54, "HOLD10", CodeTypes::Access, Some(1), None, NOW * 2));
    assert_eq!(resolve(&c, &None, NOW), Ok(Redemption::Nothing));
    assert_eq!(
        resolve(&c, &Some("hold10".to_string()), NOW),
        Ok(Redemption::Hold { id: HOLD_DISCOUNT, hold_type: HoldTypes::Discount, discount_in_cents: Some(300), max_per_user: Some(2) })
    );
    assert_eq!(
        resolve(&c, &Some("Half".to_string()), NOW),
        Ok(Redemption::Code { id: CODE_PERCENT, code_type: CodeTypes::Discount, discount_in_cents: None })
    );
    // what is already in upper case is compared as it is
    assert_eq!(resolve_upper(&c, &"half".to_string(), NOW), Err(DatabaseError::RedemptionCodeInvalid));
    assert_eq!(Hold::find_by_redemption_code(&"COMPED".to_string(), &c), Some(1));
    assert_eq!(Code::find_by_redemption_code(&"COMPED".to_string(), &c), None);
    // a hold is valid up to its end, a code within its window
    assert_eq!(c.holds[2].confirm_hold_valid(NOW - 1), Ok(()));
    assert_eq!(c.holds[2].confirm_hold_valid(NOW), Err(DatabaseError::HoldNotValid { id: HOLD_ENDED, end_at: NOW - 1 }));
    assert_eq!(c.holds[0].confirm_hold_valid(i64::MAX), Ok(()));
    assert_eq!(c.codes[3].confirm_code_valid(NOW - 1), Ok(()));
    assert_eq!(c.codes[3].confirm_code_valid(0), Ok(()));
    assert_eq!(
        c.codes[3].confirm_code_valid(-1),
        Err(DatabaseError::CodeNotValid { code_id: CODE_EXPIRED, start_date: 0, end_date: NOW - 1 })
    );
}

#[test]
fn a_discount_code_has_one_kind_of_discount() {
    assert_eq!(Code::single_discount_present_for_discount_type(CodeTypes::Discount, Some(1), None), Ok(()));
    assert_eq!(Code::single_discount_present_for_discount_type(CodeTypes::Discount, None, Some(1)), Ok(()));
    assert_eq!(
        Code::single_discount_present_for_discount_type(CodeTypes::Discount, None, None),
        Err(DatabaseError::DiscountRequired)
    );
    assert_eq!(
        Code::single_discount_present_for_discount_type(CodeTypes::Discount, Some(1), Some(1)),
        Err(DatabaseError::OnlySingleDiscountTypeAllowed)
    );
    assert_eq!(Code::single_discount_present_for_discount_type(CodeTypes::Access, None, None), Ok(()));
    assert_eq!(Code::single_discount_present_for_discount_type(CodeTypes::Access, Some(1), Some(1)), Ok(()));
    assert_eq!(DatabaseError::DiscountRequired.error_code(), ErrorCode::ValidationError);
    assert_eq!(DatabaseError::OnlySingleDiscountTypeAllowed.error_code(), ErrorCode::ValidationError);
}

#[test]
fn the_status_moves_as_the_state_machine_allows() {
    let (cancelled, draft, paid, pending) = (OrderStatus::Cancelled, OrderStatus::Draft, OrderStatus::Paid, OrderStatus::PendingPayment);
    let all = [cancelled, draft, paid, pending];
    let allowed = [(draft, pending), (draft, paid), (draft, cancelled), (pending, paid), (pending, draft)];
    for from in all {
        for to in all {
            assert_eq!(Order::status_change_allowed(from, to), allowed.contains(&(from, to)));
        }
    }
    let mut s = store();
    let mut cart = cart_for(ALICE, &mut s);
    cart.update_status(Some(ALICE), OrderStatus::PendingPayment, &mut s, NOW + 1).unwrap();
    assert_eq!(cart.status, OrderStatus::PendingPayment);
    assert_eq!(cart.paid_at, None);
    let row = Order::find(cart.id, &s).unwrap();
    assert_eq!(row.status, OrderStatus::PendingPayment);
    assert_eq!(row.updated_at, NOW + 1);
    let event = s.domain_events.last().unwrap();
    assert_eq!(event.event_type, DomainEventTypes::OrderStatusUpdated);
    assert_eq!(event.event_data, EventData::StatusChanged { old_status: draft, new_status: pending });
    // back to draft, and a draft stays a draft
    cart.reset_to_draft(Some(ALICE), &mut s, NOW).unwrap();
    assert_eq!(cart.status, draft);
    let before = s.snapshot();
    cart.reset_to_draft(Some(ALICE), &mut s, NOW).unwrap();
    assert_eq!(s, before);
    cart.update_status(None, paid, &mut s, NOW + 2).unwrap();
    assert_eq!(cart.paid_at, Some(NOW + 2));
    let before = s.snapshot();
    assert_eq!(cart.reset_to_draft(None, &mut s, NOW), Err(DatabaseError::ResetOfPaidOrder));
    assert_eq!(cart.update_status(None, draft, &mut s, NOW), Err(DatabaseError::InvalidStatusChange { from: paid, to: draft }));
    assert_eq!(s, before);
    let mut other = cart_for(BOB, &mut s);
    other.update_status(None, cancelled, &mut s, NOW).unwrap();
    assert_eq!(other.reset_to_draft(None, &mut s, NOW), Err(DatabaseError::ResetOfCancelledOrder));
    assert_eq!(DatabaseError::ResetOfCancelledOrder.error_code(), ErrorCode::BusinessProcessError);
    assert_eq!(DatabaseError::ResetOfPaidOrder.error_code(), ErrorCode::BusinessProcessError);
}

#[test]
fn checkout_records_what_it_learns() {
    let c = catalog();
    let mut s = store();
    let mut cart = cart_for(ALICE, &mut s);
    cart.set_user_agent(Some("firefox".to_string()), false, &mut s, NOW + 1).unwrap();
    cart.set_user_agent(Some("safari".to_string()), true, &mut s, NOW + 2).unwrap();
    assert_eq!(cart.create_user_agent, Some("firefox".to_string()));
    assert_eq!(cart.purchase_user_agent, Some("safari".to_string()));
    assert_eq!(cart.version, 2);
    assert_eq!(Order::find(cart.id, &s).unwrap(), cart);
    let mut stale = cart.clone();
    stale.version = 0;
    assert_eq!(stale.set_user_agent(None, true, &mut s, NOW), Err(DatabaseError::OrderVersionMismatch));

    cart.set_behalf_of_user(s.users[1], ALICE, &mut s, NOW + 3).unwrap();
    assert_eq!(cart.on_behalf_of_user_id, Some(BOB));
    assert_eq!(s.domain_events.last().unwrap().event_type, DomainEventTypes::OrderBehalfOfUserChanged);
    assert_eq!(s.domain_events.last().unwrap().event_data, EventData::BehalfOfUserChanged { old_user: None, new_user: BOB });
    cart.set_external_payment_type(ExternalPaymentType::Cash, ALICE, &mut s, NOW + 4).unwrap();
    assert_eq!(cart.external_payment_type, Some(ExternalPaymentType::Cash));
    assert_eq!(Order::find(cart.id, &s).unwrap().on_behalf_of_user_id, Some(BOB));
    assert_eq!(Order::find(cart.id, &s).unwrap().external_payment_type, Some(ExternalPaymentType::Cash));

    cart.add_checkout_url(ALICE, "https://pay.example/1".to_string(), NOW + 500, &mut s, NOW + 5).unwrap();
    assert_eq!(cart.checkout_url, Some("https://pay.example/1".to_string()));
    assert_eq!(cart.expires_at, Some(NOW + 500));
    let row = Order::find(cart.id, &s).unwrap();
    assert_eq!(row.checkout_url, Some("https://pay.example/1".to_string()));
    assert_eq!(row.checkout_url_expires, Some(NOW + 500));
    assert_eq!(row.expires_at, Some(NOW + 500));

    // tickets bought on behalf of a user are the user's
    cart.update_quantities(ALICE, &[wish(TYPE_B, 2, None)], false, false, &c, &mut s, NOW + 6).unwrap();
    assert_eq!(Order::quantity_for_user_for_ticket_type_by_hold(BOB, TYPE_B, None, &s, NOW + 6), 2);
    assert_eq!(Order::quantity_for_user_for_ticket_type_by_hold(ALICE, TYPE_B, None, &s, NOW + 6), 0);
    let total = cart.calculate_total(&s).unwrap();
    cart.add_external_payment(None, ExternalPaymentType::Cash, ALICE, total, &c, &mut s, NOW + 7).unwrap();
    assert!(s.ticket_instances.iter().filter(|t| t.status == TicketInstanceStatus::Purchased).all(|t| t.owner_id == Some(BOB)));

    let before = s.snapshot();
    assert_eq!(cart.set_behalf_of_user(s.users[0], ALICE, &mut s, NOW), Err(DatabaseError::OrderNotDraft));
    assert_eq!(cart.set_external_payment_type(ExternalPaymentType::Cash, ALICE, &mut s, NOW), Err(DatabaseError::OrderNotDraft));
    assert_eq!(s, before);
}

#[test]
fn what_an_order_is_asked() {
    let c = catalog();
    let mut s = store();
    let mut cart = cart_for(ALICE, &mut s);
    assert_eq!(cart.main_event_id(&s), Err(DatabaseError::NoEventForOrder));
    assert_eq!(DatabaseError::NoEventForOrder.error_code(), ErrorCode::NoResults);
    cart.update_quantities(ALICE, &[wish(TYPE_A, 2, None), wish(TYPE_A, 1, Some("HOLD10"))], false, false, &c, &mut s, NOW).unwrap();
    assert_eq!(cart.main_event_id(&s), Ok(EVENT));
    let tickets = lines_of(&s, &cart, OrderItemTypes::Tickets);
    assert_eq!(cart.find_item(tickets[1].id, &s), Ok(tickets[1]));
    let fee = lines_of(&s, &cart, OrderItemTypes::PerUnitFees)[0];
    assert_eq!(cart.find_item(fee.id, &s), Err(DatabaseError::NotFound { table: Tables::OrderItems, id: fee.id }));
    // the last line of the type
    assert_eq!(cart.find_item_by_type(TYPE_A, OrderItemTypes::Tickets, &s), Ok(tickets[1]));
    assert_eq!(
        cart.find_item_by_type(TYPE_B, OrderItemTypes::Tickets, &s),
        Err(DatabaseError::NotFound { table: Tables::OrderItems, id: TYPE_B })
    );
    assert_eq!(cart.tickets(TYPE_A, &s).iter().map(|t| t.id).collect::<Vec<u128>>(), vec![1000, 1001, 1300]);
    assert_eq!(TicketInstance::find_for_order_item(tickets[0].id, &s).len(), 2);
    assert_eq!(tickets[0].calculate_quantity(&s), 2);
    assert_eq!(cart.items(&s).len(), s.order_items.len());
    assert_eq!(OrderItem::find_for_order(cart.id, &s), s.order_items);
    assert_eq!(OrderItem::find(4, &s), Err(DatabaseError::NotFound { table: Tables::OrderItems, id: 4 }));
    assert_eq!(Order::find(4, &s), Err(DatabaseError::NotFound { table: Tables::Orders, id: 4 }));
    assert_eq!(TicketInstance::find(1000, &s), Ok(s.ticket_instances[0]));
    // the order goes, and the user's pointer with it
    assert_eq!(cart.destroy(&mut s, NOW + 9), 1);
    assert!(s.orders.is_empty());
    assert_eq!(s.users[0], User { id: ALICE, last_cart_id: None, updated_at: NOW + 9 });
    assert_eq!(cart.destroy(&mut s, NOW + 9), 0);
}

#[test]
fn the_log_and_the_work_list_take_entries() {
    let mut s = store();
    let event = DomainEvent::create(DomainEventTypes::OrderUpdated, Tables::Orders, Some(3), None, EventData::NoteChanged, &mut s, NOW).unwrap();
    assert_eq!(event.id, 5000);
    assert_eq!(event.created_at, NOW);
    assert_eq!(s.domain_events, vec![event]);
    assert_eq!(s.next_id, 5001);
    DomainAction::create(None, DomainActionTypes::SendPurchaseCompletedCommunication, Tables::Orders, 3, Some(ALICE), 1, &mut s, NOW).unwrap();
    assert_eq!(s.domain_actions[0].id, 5001);
    assert_eq!(s.domain_actions[0].expires_at, NOW + 86_400_000_000);
    let before = s.snapshot();
    assert_eq!(
        DomainAction::create(None, DomainActionTypes::SendPurchaseCompletedCommunication, Tables::Orders, 3, None, i64::MAX, &mut s, NOW),
        Err(DatabaseError::ArithmeticOverflow)
    );
    assert_eq!(
        DomainAction::create(None, DomainActionTypes::SendPurchaseCompletedCommunication, Tables::Orders, 3, None, 1, &mut s, i64::MAX),
        Err(DatabaseError::ArithmeticOverflow)
    );
    assert_eq!(s, before);
}

#[test]
fn to_table_name() {
    assert_eq!(Tables::Events.table_name(), "events");
}

#[test]
fn a_table_has_a_name_for_the_log_and_one_for_the_database() {
    assert_eq!(Tables::Events.to_string(), "Events");
    assert_eq!(Tables::TicketInstances.to_string(), "TicketInstances");
    assert_eq!(Tables::TicketInstances.table_name(), "ticketinstances");
    assert_eq!(Tables::OrderItems.table_name(), "orderitems");
    assert_eq!(Tables::Orders.table_name(), "orders");
}

#[test]
fn the_login_url_carries_what_the_dialog_needs() {
    let url = FacebookClient::get_login_url("app 1", None, "s&t", &["email", "manage_pages"]);
    assert_eq!(
        url,
        "https://www.facebook.com/v3.2/dialog/oauth?client_id=app+1&redirect_uri=https%3A%2F%2Fwww.facebook.com%2Fconnect%2Flogin_success.html&state=s%26t&scope=email%2Cmanage_pages"
    );
    let url = FacebookClient::get_login_url("1", Some("https://x.example/back"), "", &[]);
    assert_eq!(url, "https://www.facebook.com/v3.2/dialog/oauth?client_id=1&redirect_uri=https%3A%2F%2Fx.example%2Fback&state=&scope=");
    // a scope that is empty at the start leaves no comma
    let url = FacebookClient::get_login_url("1", Some("u"), "", &["", "a", "", "b"]);
    assert_eq!(url, "https://www.facebook.com/v3.2/dialog/oauth?client_id=1&redirect_uri=u&state=&scope=a%2C%2Cb");
}

#[test]
fn a_refresh_token_names_its_user() {
    let id = Uuid::parse_str("01234567-1234-1234-1234-1234567890ab").unwrap().as_u128();
    let token = RefreshToken::new(id, "issuer".to_string(), 1_500_000_000);
    assert_eq!(token.sub, "01234567-1234-1234-1234-1234567890ab");
    assert_eq!(token.iss, "issuer");
    assert_eq!(token.issued, 1_500_000_000);
    assert_eq!(token.get_id(), Some(id));
    let odd = RefreshToken { sub: "nobody".to_string(), iss: "issuer".to_string(), issued: 0 };
    assert_eq!(odd.get_id(), None);
}

#[test]
fn an_identifier_is_read_back_from_its_text() {
    for id in [0u128, 1, 0xffff_ffff, u128::MAX, 0xa1a2a3a4b1b2c1c2d1d2d3d4d5d6d7d8] {
        assert_eq!(id_from_str(&id_to_string(id)), Some(id));
    }
    assert_eq!(id_from_str("A1A2A3A4B1B2C1C2D1D2D3D4D5D6D7D8"), Some(0xa1a2a3a4b1b2c1c2d1d2d3d4d5d6d7d8));
    assert_eq!(id_from_str(""), None);
    assert_eq!(id_from_str("01234567-1234-1234-1234-1234567890a"), None);
    assert_eq!(id_to_string(1).len(), 36);
}

fn shown(id: u128, cart_item_status: Option<CartItemStatus>) -> DisplayOrderItem {
    DisplayOrderItem {
        id,
        parent_id: None,
        ticket_type_id: Some(TYPE_A),
        item_type: OrderItemTypes::Tickets,
        quantity: 1,
        refunded_quantity: 0,
        unit_price_in_cents: 1000,
        cart_item_status,
    }
}

#[test]
fn only_a_draft_is_judged_for_purchase() {
    let fine = vec![shown(1, Some(CartItemStatus::Valid)), shown(2, None)];
    let late = vec![shown(1, Some(CartItemStatus::Valid)), shown(2, Some(CartItemStatus::CodeExpired))];
    assert_eq!(DisplayOrder::valid_for_purchase(OrderStatus::Draft, &fine), Some(true));
    assert_eq!(DisplayOrder::valid_for_purchase(OrderStatus::Draft, &vec![]), Some(true));
    assert_eq!(DisplayOrder::valid_for_purchase(OrderStatus::Draft, &late), Some(false));
    assert_eq!(DisplayOrder::valid_for_purchase(OrderStatus::Paid, &late), None);
    assert_eq!(DisplayOrder::valid_for_purchase(OrderStatus::PendingPayment, &fine), None);
    for status in [CartItemStatus::HoldExpired, CartItemStatus::TicketNullified, CartItemStatus::TicketNotReserved] {
        assert_eq!(DisplayOrder::valid_for_purchase(OrderStatus::Draft, &vec![shown(1, Some(status))]), Some(false));
    }
}

#[test]
fn a_cart_has_whole_seconds_left() {
    let mut s = store();
    let mut cart = cart_for(ALICE, &mut s);
    assert_eq!(cart.seconds_until_expiry_at(NOW), None);
    assert_eq!(cart.seconds_until_expiry(), None);
    cart.expires_at = Some(NOW + 1_999_999);
    assert_eq!(cart.seconds_until_expiry_at(NOW), Some(1));
    assert_eq!(cart.seconds_until_expiry_at(NOW + 1_999_999), Some(0));
    assert_eq!(cart.seconds_until_expiry_at(NOW + 2_000_000), Some(0));
    assert_eq!(cart.seconds_until_expiry_at(NOW - 1), Some(2));
    cart.expires_at = Some(i64::MAX);
    assert_eq!(cart.seconds_until_expiry_at(i64::MIN), Some(u32::MAX));
    // by the clock of the machine: long gone, or far off
    cart.expires_at = Some(0);
    assert_eq!(cart.seconds_until_expiry(), Some(0));
    cart.expires_at = Some(i64::MAX);
    assert_eq!(cart.seconds_until_expiry(), Some(u32::MAX));
}

#[test]
fn get_event_limited_roles() {
    assert_eq!(Roles::get_event_limited_roles(), vec![Roles::Promoter, Roles::PromoterReadOnly]);
}

#[test]
fn display() {
    assert_eq!(Roles::Admin.to_string(), "Admin");
    assert_eq!(Roles::OrgAdmin.to_string(), "OrgAdmin");
    assert_eq!(Roles::OrgMember.to_string(), "OrgMember");
    assert_eq!(Roles::OrgOwner.to_string(), "OrgOwner");
    assert_eq!(Roles::OrgBoxOffice.to_string(), "OrgBoxOffice");
    assert_eq!(Roles::DoorPerson.to_string(), "DoorPerson");
    assert_eq!(Roles::Promoter.to_string(), "Promoter");
    assert_eq!(Roles::PromoterReadOnly.to_string(), "PromoterReadOnly");
    assert_eq!(Roles::User.to_string(), "User");
}

#[test]
fn parse() {
    assert_eq!(Roles::Admin, "Admin".parse().unwrap());
    assert_eq!(Roles::OrgMember, "OrgMember".parse().unwrap());
    assert_eq!(Roles::OrgOwner, "OrgOwner".parse().unwrap());
    assert_eq!(Roles::OrgBoxOffice, "OrgBoxOffice".parse().unwrap());
    assert!("Invalid Role".parse::<Roles>().is_err());
}

#[test]
fn a_role_is_named_in_any_case() {
    assert_eq!(Roles::parse("promoterreadonly"), Ok(Roles::PromoterReadOnly));
    assert_eq!(Roles::parse("PROMOTER"), Ok(Roles::Promoter));
    assert_eq!(Roles::parse("user"), Ok(Roles::User));
    let refused = Roles::parse("Promoter ").unwrap_err();
    assert_eq!(refused.value, "Promoter ");
    assert_eq!(refused.enum_type, "Roles");
    assert_eq!(refused.message, "Could not parse value");
    assert!(Roles::parse("").is_err());
}

#[test]
fn rows_of_the_catalog_are_found_by_identifier() {
    let c = catalog();
    let s = store();
    assert_eq!(Hold::find(HOLD_COMP, &c), Ok(&c.holds[1]));
    assert_eq!(Hold::find(1, &c), Err(DatabaseError::NotFound { table: Tables::Holds, id: 1 }));
    assert_eq!(Code::find(CODE_PERCENT, &c), Ok(&c.codes[2]));
    assert_eq!(Code::find(1, &c), Err(DatabaseError::NotFound { table: Tables::Codes, id: 1 }));
    assert_eq!(Event::find(OTHER_EVENT, &c), Ok(c.events[1]));
    assert_eq!(Event::find(1, &c), Err(DatabaseError::NotFound { table: Tables::Events, id: 1 }));
    assert_eq!(TicketType::find(TYPE_B, &c), Ok(c.ticket_types[1]));
    assert_eq!(TicketType::find(1, &c), Err(DatabaseError::NotFound { table: Tables::TicketTypes, id: 1 }));
    assert_eq!(User::find(BOB, &s), Ok(s.users[1]));
    assert_eq!(User::find(9, &s), Err(DatabaseError::NotFound { table: Tables::Users, id: 9 }));
}

#[test]
fn an_order_is_written_and_its_note_changed() {
    let mut s = store();
    let order = NewOrder {
        user_id: ALICE,
        status: OrderStatus::Draft,
        expires_at: Some(NOW + 5),
        order_type: OrderTypes::BackOffice,
        create_user_agent: Some("curl".to_string()),
    }
    .commit(&mut s, NOW)
    .unwrap();
    assert_eq!(order.id, 5000);
    assert_eq!(order.order_type, OrderTypes::BackOffice);
    assert_eq!(order.expires_at, Some(NOW + 5));
    assert_eq!(order.create_user_agent, Some("curl".to_string()));
    assert_eq!(order.version, 0);
    assert_eq!(s.orders, vec![order.clone()]);
    let noted = order
        .clone()
        .update(UpdateOrderAttributes { note: Some(Some("by the stage".to_string())) }, BOB, &mut s, NOW + 1)
        .unwrap();
    assert_eq!(noted.note, Some("by the stage".to_string()));
    assert_eq!(noted.updated_at, NOW + 1);
    assert_eq!(s.orders, vec![noted.clone()]);
    assert_eq!(s.domain_events.last().unwrap().event_data, EventData::NoteChanged);
    assert_eq!(s.domain_events.last().unwrap().user_id, Some(BOB));
    // nothing given, nothing changed; a note given as nothing is cleared
    let same = noted.clone().update(UpdateOrderAttributes { note: None }, BOB, &mut s, NOW + 2).unwrap();
    assert_eq!(same.note, Some("by the stage".to_string()));
    let cleared = same.update(UpdateOrderAttributes { note: Some(None) }, BOB, &mut s, NOW + 3).unwrap();
    assert_eq!(cleared.note, None);
    let mut gone = cleared.clone();
    gone.id = 3;
    let before = s.snapshot();
    assert_eq!(
        gone.update(UpdateOrderAttributes { note: None }, BOB, &mut s, NOW),
        Err(DatabaseError::NotFound { table: Tables::Orders, id: 3 })
    );
    assert_eq!(s, before);
}

#[test]
fn the_events_of_an_order_and_the_uses_of_a_code() {
    let c = catalog();
    let mut s = store();
    let mut cart = cart_for(ALICE, &mut s);
    assert!(cart.events(&c, &s).is_empty());
    cart.update_quantities(ALICE, &[wish(TYPE_A, 2, Some("TENOFF")), wish(TYPE_B, 1, None)], false, false, &c, &mut s, NOW).unwrap();
    assert_eq!(cart.events(&c, &s), vec![c.events[0]]);
    let line = lines_of(&s, &cart, OrderItemTypes::Tickets)[0];
    assert_eq!(line.item_type(), OrderItemTypes::Tickets);
    // two tickets were taken under the code
    assert_eq!(Code::find_number_of_uses(CODE_CENTS, None, &s, NOW), Ok(2));
    assert_eq!(Code::find_number_of_uses(CODE_CENTS, Some(cart.id), &s, NOW), Ok(0));
    assert_eq!(Code::find_number_of_uses(CODE_ACCESS, None, &s, NOW), Ok(0));
    // a cart that ran out uses nothing
    assert_eq!(Code::find_number_of_uses(CODE_CENTS, None, &s, NOW + QUARTER_HOUR), Ok(0));
    let found = Code::find_by_redemption_code_with_availability(&"tenoff".to_string(), None, &c, &s, NOW).unwrap();
    assert_eq!(found, CodeAvailability { code: c.codes[1].clone(), available: 98 });
    let found = Code::find_by_redemption_code_with_availability(&"TENOFF".to_string(), Some(EVENT), &c, &s, NOW).unwrap();
    assert_eq!(found.available, 98);
    assert_eq!(
        Code::find_by_redemption_code_with_availability(&"TENOFF".to_string(), Some(OTHER_EVENT), &c, &s, NOW),
        Err(DatabaseError::RedemptionCodeInvalid)
    );
    assert_eq!(
        Code::find_by_upper_code_with_availability(&"tenoff".to_string(), None, &c, &s, NOW),
        Err(DatabaseError::RedemptionCodeInvalid)
    );
}

#[test]
fn an_order_is_shown_to_its_buyer() {
    let c = catalog();
    let mut s = store();
    let mut cart = cart_for(ALICE, &mut s);
    cart.update_quantities(ALICE, &[wish(TYPE_A, 2, None)], false, false, &c, &mut s, NOW).unwrap();
    cart.add_checkout_url(ALICE, "https://pay.example/7".to_string(), NOW + 3_500_000, &mut s, NOW).unwrap();
    let shown = cart.for_display(&c, &s, NOW + 1).unwrap();
    assert_eq!(shown.id, cart.id);
    assert_eq!(shown.status, OrderStatus::Draft);
    assert_eq!(shown.user_id, ALICE);
    assert_eq!(shown.expires_at, Some(NOW + 3_500_000));
    assert_eq!(shown.seconds_until_expiry, Some(3));
    assert_eq!(shown.total_in_cents, 2 * 1000 + 2 * 100 + 50);
    assert_eq!(shown.order_number, "00001388");
    assert_eq!(shown.items, cart.items_for_display(&c, &s, NOW + 1));
    assert_eq!(shown.items.len(), 3);
    assert_eq!(shown.items[0].cart_item_status, Some(CartItemStatus::Valid));
    assert_eq!(shown.valid_for_purchase, Some(true));
    assert_eq!(shown.paid_at, None);
    // the address is shown while it has not run out
    assert_eq!(shown.checkout_url, Some("https://pay.example/7".to_string()));
    assert_eq!(cart.checkout_url_at(NOW + 3_499_999), Some("https://pay.example/7".to_string()));
    assert_eq!(cart.checkout_url_at(NOW + 3_500_000), None);
    let late = cart.for_display(&c, &s, NOW + 3_500_000).unwrap();
    assert_eq!(late.checkout_url, None);
    assert_eq!(late.seconds_until_expiry, Some(0));
    assert_eq!(late.valid_for_purchase, Some(false));
    let mut plain = cart.clone();
    plain.checkout_url_expires = None;
    assert_eq!(plain.checkout_url_at(NOW), None);
}
