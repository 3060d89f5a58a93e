//! The rows of the store. Each struct holds the columns that the rules read
//! or write, as plain values.

use vstd::prelude::*;
use crate::types::{
    CodeTypes, DomainActionStatus, DomainActionTypes, DomainEventTypes, ExternalPaymentType,
    HoldTypes, Id, OrderItemTypes, OrderStatus, OrderTypes, PaymentMethods, PaymentProviders,
    PaymentStatus, Tables, TicketInstanceStatus, TicketPricingStatus, Timestamp,
};

verus! {

/// The columns of a user row that the cart rules use.
#[derive(Clone, Copy, PartialEq, Eq, Debug, Structural)]
pub struct User {
    pub id: Id,
    /// The user's open cart, if the user has one.
    pub last_cart_id: Option<Id>,
    /// When the row was last written; a writer that read an older value loses.
    pub updated_at: Timestamp,
}

/// A cart, or an order that grew out of one.
#[derive(Debug, PartialEq, Eq)]
pub struct Order {
    pub id: Id,
    pub user_id: Id,
    pub status: OrderStatus,
    pub order_type: OrderTypes,
    pub order_date: Timestamp,
    /// `None` only while the cart is empty.
    pub expires_at: Option<Timestamp>,
    /// Grows by one with every change that locks the order.
    pub version: i64,
    pub note: Option<String>,
    pub on_behalf_of_user_id: Option<Id>,
    pub created_at: Timestamp,
    pub updated_at: Timestamp,
    pub paid_at: Option<Timestamp>,
    pub box_office_pricing: bool,
    pub checkout_url: Option<String>,
    pub checkout_url_expires: Option<Timestamp>,
    pub create_user_agent: Option<String>,
    pub purchase_user_agent: Option<String>,
    pub external_payment_type: Option<ExternalPaymentType>,
}

/// One line of an order.
#[derive(Clone, Copy, PartialEq, Eq, Debug, Structural)]
pub struct OrderItem {
    pub id: Id,
    pub order_id: Id,
    pub item_type: OrderItemTypes,
    pub ticket_type_id: Option<Id>,
    pub event_id: Option<Id>,
    pub quantity: i64,
    pub unit_price_in_cents: i64,
    pub ticket_pricing_id: Option<Id>,
    pub fee_schedule_range_id: Option<Id>,
    /// The ticket line that a fee or discount line belongs to.
    pub parent_id: Option<Id>,
    pub hold_id: Option<Id>,
    pub code_id: Option<Id>,
    pub company_fee_in_cents: i64,
    pub client_fee_in_cents: i64,
    pub refunded_quantity: i64,
}

/// One ticket of a ticket type.
#[derive(Clone, Copy, PartialEq, Eq, Debug, Structural)]
pub struct TicketInstance {
    pub id: Id,
    pub ticket_type_id: Id,
    /// The hold that the instance is set aside for.
    pub hold_id: Option<Id>,
    /// The order line that holds or bought the instance.
    pub order_item_id: Option<Id>,
    /// The user whose wallet holds the instance once it is bought.
    pub owner_id: Option<Id>,
    /// Until when a reservation stands; `None` stands without end.
    pub reserved_until: Option<Timestamp>,
    pub status: TicketInstanceStatus,
    /// Whether the instance has moved to another wallet since it was bought.
    pub transferred: bool,
}

/// The key that a door scanner must present to redeem an instance.
#[derive(Debug, PartialEq, Eq)]
pub struct RedeemKey {
    pub ticket_instance_id: Id,
    pub redeem_key: String,
}

/// Inventory set aside under a redemption code, at a discount or for free.
#[derive(Debug, PartialEq, Eq)]
pub struct Hold {
    pub id: Id,
    pub event_id: Id,
    pub ticket_type_id: Id,
    pub redemption_code: String,
    pub hold_type: HoldTypes,
    pub discount_in_cents: Option<i64>,
    pub max_per_user: Option<i64>,
    pub end_at: Option<Timestamp>,
}

/// A discount or access code.
#[derive(Debug, PartialEq, Eq)]
pub struct Code {
    pub id: Id,
    pub event_id: Id,
    pub code_type: CodeTypes,
    pub redemption_code: String,
    pub max_uses: i64,
    pub discount_in_cents: Option<i64>,
    pub discount_as_percentage: Option<i64>,
    pub start_date: Timestamp,
    pub end_date: Timestamp,
    pub max_tickets_per_user: Option<i64>,
}

#[derive(Clone, Copy, PartialEq, Eq, Debug, Structural)]
pub struct TicketType {
    pub id: Id,
    pub event_id: Id,
    /// How many instances one person may hold; zero or less means no limit.
    pub limit_per_person: i64,
}

/// A period in which a ticket type sells at one price.
#[derive(Clone, Copy, PartialEq, Eq, Debug, Structural)]
pub struct TicketPricing {
    pub id: Id,
    pub ticket_type_id: Id,
    pub price_in_cents: i64,
    pub start_date: Timestamp,
    pub end_date: Timestamp,
    pub is_box_office_only: bool,
    pub status: TicketPricingStatus,
}

/// The columns of an event that the fee rules use.
#[derive(Clone, Copy, PartialEq, Eq, Debug, Structural)]
pub struct Event {
    pub id: Id,
    /// The schedule of per-ticket fees that applies to the event's tickets.
    pub fee_schedule_id: Option<Id>,
    pub fee_in_cents: i64,
    pub company_fee_in_cents: i64,
    pub client_fee_in_cents: i64,
}

/// The per-ticket fee for net prices from `min_price_in_cents` upwards.
#[derive(Clone, Copy, PartialEq, Eq, Debug, Structural)]
pub struct FeeScheduleRange {
    pub id: Id,
    pub fee_schedule_id: Id,
    pub min_price_in_cents: i64,
    pub fee_in_cents: i64,
    pub company_fee_in_cents: i64,
    pub client_fee_in_cents: i64,
}

/// Money received against an order.
#[derive(Debug, PartialEq, Eq)]
pub struct Payment {
    pub id: Id,
    pub order_id: Id,
    pub created_by: Option<Id>,
    pub status: PaymentStatus,
    pub payment_method: PaymentMethods,
    pub provider: PaymentProviders,
    pub external_reference: Option<String>,
    pub amount: i64,
    /// What the provider sent, as text.
    pub raw_data: Option<String>,
    pub url_nonce: Option<String>,
    pub created_at: Timestamp,
}

/// A payment before it is recorded.
#[derive(Debug, PartialEq, Eq)]
pub struct NewPayment {
    pub order_id: Id,
    pub created_by: Option<Id>,
    pub status: PaymentStatus,
    pub payment_method: PaymentMethods,
    pub provider: PaymentProviders,
    pub external_reference: Option<String>,
    pub amount: i64,
    pub raw_data: Option<String>,
    pub url_nonce: Option<String>,
}

/// Which parts of one ticket have been refunded, and when.
#[derive(Clone, Copy, PartialEq, Eq, Debug, Structural)]
pub struct RefundedTicket {
    pub id: Id,
    pub order_item_id: Option<Id>,
    pub ticket_instance_id: Id,
    pub fee_refunded_at: Option<Timestamp>,
    pub ticket_refunded_at: Option<Timestamp>,
}

/// What a domain event says beyond its type.
#[derive(Clone, Copy, PartialEq, Eq, Debug, Structural)]
pub enum EventData {
    Empty,
    ExpiryChanged { old_expires_at: Option<Timestamp>, new_expires_at: Option<Timestamp> },
    BoxOfficePricingChanged { old_box_office_pricing: bool, new_box_office_pricing: bool },
    StatusChanged { old_status: OrderStatus, new_status: OrderStatus },
    ExternalPaymentTypeRecorded { external_payment_type: ExternalPaymentType },
    BehalfOfUserChanged { old_user: Option<Id>, new_user: Id },
    CheckoutUrlAdded { expires: Timestamp },
    NoteChanged,
    /// The tickets of the order are listed in the store's event tickets.
    OrderCompleted,
    PaymentRecorded { payment_id: Id, amount: i64, status: PaymentStatus },
    TicketRedeemed,
}

/// One entry of the audit log.
#[derive(Clone, Copy, PartialEq, Eq, Debug, Structural)]
pub struct DomainEvent {
    pub id: Id,
    pub event_type: DomainEventTypes,
    pub main_table: Tables,
    pub main_id: Option<Id>,
    pub user_id: Option<Id>,
    pub event_data: EventData,
    pub created_at: Timestamp,
}

/// One ticket named by a domain event.
#[derive(Clone, Copy, PartialEq, Eq, Debug, Structural)]
pub struct DomainEventTicket {
    pub domain_event_id: Id,
    pub ticket_instance_id: Id,
}

/// Work left for a later worker.
#[derive(Clone, Copy, PartialEq, Eq, Debug, Structural)]
pub struct DomainAction {
    pub id: Id,
    pub domain_event_id: Option<Id>,
    pub domain_action_type: DomainActionTypes,
    pub main_table: Tables,
    pub main_table_id: Id,
    /// The user on whose request the work was scheduled.
    pub user_id: Option<Id>,
    pub scheduled_at: Timestamp,
    pub expires_at: Timestamp,
    pub status: DomainActionStatus,
}

/// One wish of a cart update: so many tickets of a type, under a code or not.
#[derive(Debug, PartialEq, Eq)]
pub struct UpdateOrderItem {
    pub ticket_type_id: Id,
    pub quantity: u32,
    pub redemption_code: Option<String>,
}

/// One unit to refund: a line, and for ticket lines the ticket.
#[derive(Clone, Copy, PartialEq, Eq, Debug, Structural)]
pub struct RefundItem {
    pub order_item_id: Id,
    pub ticket_instance_id: Option<Id>,
}

fn clone_text(text: &Option<String>) -> (copy: Option<String>)
    ensures
        copy == *text,
{
    match text {
        Some(s) => Some(s.clone()),
        None => None,
    }
}

impl Clone for Order {
    fn clone(&self) -> (copy: Order)
        ensures
            copy == *self,
    {
        Order {
            id: self.id,
            user_id: self.user_id,
            status: self.status,
            order_type: self.order_type,
            order_date: self.order_date,
            expires_at: self.expires_at,
            version: self.version,
            note: clone_text(&self.note),
            on_behalf_of_user_id: self.on_behalf_of_user_id,
            created_at: self.created_at,
            updated_at: self.updated_at,
            paid_at: self.paid_at,
            box_office_pricing: self.box_office_pricing,
            checkout_url: clone_text(&self.checkout_url),
            checkout_url_expires: self.checkout_url_expires,
            create_user_agent: clone_text(&self.create_user_agent),
            purchase_user_agent: clone_text(&self.purchase_user_agent),
            external_payment_type: self.external_payment_type,
        }
    }
}

impl Clone for Payment {
    fn clone(&self) -> (copy: Payment)
        ensures
            copy == *self,
    {
        Payment {
            id: self.id,
            order_id: self.order_id,
            created_by: self.created_by,
            status: self.status,
            payment_method: self.payment_method,
            provider: self.provider,
            external_reference: clone_text(&self.external_reference),
            amount: self.amount,
            raw_data: clone_text(&self.raw_data),
            url_nonce: clone_text(&self.url_nonce),
            created_at: self.created_at,
        }
    }
}

/// What a caller may change of an order: `None` leaves the note as it is,
/// `Some` sets or clears it.
#[derive(Debug, PartialEq, Eq)]
pub struct UpdateOrderAttributes {
    pub note: Option<Option<String>>,
}

/// An order before it is written to the store.
#[derive(Debug, PartialEq, Eq)]
pub struct NewOrder {
    pub user_id: Id,
    pub status: OrderStatus,
    pub expires_at: Option<Timestamp>,
    pub order_type: OrderTypes,
    pub create_user_agent: Option<String>,
}

impl Clone for Code {
    fn clone(&self) -> (copy: Code)
        ensures
            copy == *self,
    {
        Code {
            id: self.id,
            event_id: self.event_id,
            code_type: self.code_type,
            redemption_code: self.redemption_code.clone(),
            max_uses: self.max_uses,
            discount_in_cents: self.discount_in_cents,
            discount_as_percentage: self.discount_as_percentage,
            start_date: self.start_date,
            end_date: self.end_date,
            max_tickets_per_user: self.max_tickets_per_user,
        }
    }
}

} // verus!
