//! Identifiers, timestamps and the closed sets of tags used by the rows.

use vstd::prelude::*;
use vstd::string::StringExecFns;

verus! {

/// A row identifier: the 128 bits of a UUID, most significant byte first.
pub type Id = u128;

/// A point in time: microseconds since the Unix epoch, UTC.
pub type Timestamp = i64;

/// How long a cart lives after it receives its first item.
pub const CART_EXPIRY_TIME_MINUTES: i64 = 15;

/// Microseconds in one minute.
pub const MICROS_PER_MINUTE: i64 = 60_000_000;

/// Microseconds in one day.
pub const MICROS_PER_DAY: i64 = 86_400_000_000;

/// How many characters of an order's identifier make up its order number.
pub const ORDER_NUMBER_LENGTH: usize = 8;

#[derive(Clone, Copy, PartialEq, Eq, Debug, Hash, Structural)]
pub enum OrderStatus {
    Cancelled,
    Draft,
    Paid,
    PendingPayment,
}

#[derive(Clone, Copy, PartialEq, Eq, Debug, Hash, Structural)]
pub enum OrderTypes {
    Cart,
    BackOffice,
}

#[derive(Clone, Copy, PartialEq, Eq, Debug, Hash, Structural)]
pub enum OrderItemTypes {
    Tickets,
    PerUnitFees,
    EventFees,
    Discount,
}

#[derive(Clone, Copy, PartialEq, Eq, Debug, Hash, Structural)]
pub enum TicketInstanceStatus {
    Available,
    Reserved,
    Purchased,
    Redeemed,
    Nullified,
}

#[derive(Clone, Copy, PartialEq, Eq, Debug, Hash, Structural)]
pub enum HoldTypes {
    Discount,
    Comp,
}

#[derive(Clone, Copy, PartialEq, Eq, Debug, Hash, Structural)]
pub enum CodeTypes {
    Access,
    Discount,
}

#[derive(Clone, Copy, PartialEq, Eq, Debug, Hash, Structural)]
pub enum TicketPricingStatus {
    Published,
    Deleted,
    Default,
}

#[derive(Clone, Copy, PartialEq, Eq, Debug, Hash, Structural)]
pub enum ExternalPaymentType {
    Cash,
    CreditCard,
    Voucher,
}

#[derive(Clone, Copy, PartialEq, Eq, Debug, Hash, Structural)]
pub enum PaymentMethods {
    External,
    CreditCard,
    Provider,
    Free,
}

#[derive(Clone, Copy, PartialEq, Eq, Debug, Hash, Structural)]
pub enum PaymentProviders {
    External,
    Globee,
    Stripe,
    Free,
}

#[derive(Clone, Copy, PartialEq, Eq, Debug, Hash, Structural)]
pub enum PaymentStatus {
    Authorized,
    Completed,
    Requested,
    Refunded,
    Unpaid,
    PendingConfirmation,
    Cancelled,
    Draft,
    Unknown,
    PendingIpn,
}

#[derive(Clone, Copy, PartialEq, Eq, Debug, Hash, Structural)]
pub enum DomainEventTypes {
    OrderBehalfOfUserChanged,
    OrderCompleted,
    OrderCreated,
    OrderStatusUpdated,
    OrderUpdated,
    PaymentCreated,
    TicketInstanceRedeemed,
}

#[derive(Clone, Copy, PartialEq, Eq, Debug, Hash, Structural)]
pub enum DomainActionTypes {
    SendPurchaseCompletedCommunication,
}

#[derive(Clone, Copy, PartialEq, Eq, Debug, Hash, Structural)]
pub enum DomainActionStatus {
    Pending,
    RetriesExceeded,
    Errored,
    Success,
    Cancelled,
}

#[derive(Clone, Copy, PartialEq, Eq, Debug, Hash, Structural)]
pub enum Tables {
    Codes,
    DomainEvents,
    Events,
    Holds,
    OrderItems,
    Orders,
    Payments,
    TicketTypes,
    TicketInstances,
    Users,
}

/// What a redemption attempt at the door found.
#[derive(Clone, Copy, PartialEq, Eq, Debug, Hash, Structural)]
pub enum RedeemResults {
    TicketRedeemSuccess,
    TicketAlreadyRedeemed,
    TicketInvalid,
}

/// Whether a cart line can still be bought, and if not, why.
#[derive(Clone, Copy, PartialEq, Eq, Debug, Hash, Structural)]
pub enum CartItemStatus {
    CodeExpired,
    HoldExpired,
    TicketNullified,
    TicketNotReserved,
    Valid,
}

/// The letter in lower case where it is a capital letter of ASCII, else
/// the letter itself.
pub open spec fn ascii_lower(c: char) -> char {
    if 65 <= c as u32 <= 90 {
        (c as u32 + 32) as char
    } else {
        c
    }
}

/// The text with every capital letter of ASCII in lower case.
pub open spec fn ascii_lowercase(text: Seq<char>) -> Seq<char> {
    Seq::new(text.len(), |i: int| ascii_lower(text[i]))
}

/// `str::to_ascii_lowercase` of std: a copy of the text in which the
/// letters `A` to `Z` are replaced by `a` to `z`, and nothing else changes.
#[verifier::external_body]
fn to_ascii_lowercase(text: &str) -> (lower: String)
    ensures
        lower@ == ascii_lowercase(text@),
{
    text.to_ascii_lowercase()
}

impl Tables {
    /// The name of the table as it is written in the log.
    pub open spec fn spec_name(self) -> Seq<char> {
        match self {
            Tables::Codes => "Codes"@,
            Tables::DomainEvents => "DomainEvents"@,
            Tables::Events => "Events"@,
            Tables::Holds => "Holds"@,
            Tables::OrderItems => "OrderItems"@,
            Tables::Orders => "Orders"@,
            Tables::Payments => "Payments"@,
            Tables::TicketInstances => "TicketInstances"@,
            Tables::TicketTypes => "TicketTypes"@,
            Tables::Users => "Users"@,
        }
    }

    fn name(&self) -> (name: &'static str)
        ensures
            name@ == self.spec_name(),
    {
        match self {
            Tables::Codes => "Codes",
            Tables::DomainEvents => "DomainEvents",
            Tables::Events => "Events",
            Tables::Holds => "Holds",
            Tables::OrderItems => "OrderItems",
            Tables::Orders => "Orders",
            Tables::Payments => "Payments",
            Tables::TicketInstances => "TicketInstances",
            Tables::TicketTypes => "TicketTypes",
            Tables::Users => "Users",
        }
    }

    /// The name of the table as it is written in the log.
    pub fn to_string(&self) -> (name: String)
        ensures
            name@ == self.spec_name(),
    {
        String::from_str(self.name())
    }

    /// The name of the table in the database: its name in lower case.
    pub fn table_name(&self) -> (name: String)
        ensures
            name@ == ascii_lowercase(self.spec_name()),
    {
        to_ascii_lowercase(self.name())
    }
}

/// Whether `x` can be held in an `i64`.
pub open spec fn fits_i64(x: int) -> bool {
    i64::MIN <= x <= i64::MAX
}

} // verus!
