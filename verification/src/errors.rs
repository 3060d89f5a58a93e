//! The failures that the operations report.

use vstd::prelude::*;
use crate::types::{Id, OrderStatus, Tables, Timestamp};

verus! {

/// The four kinds of failure, by what a caller should do about them, and the
/// kind kept for a limit of the machine.
#[derive(Clone, Copy, PartialEq, Eq, Debug, Hash, Structural)]
pub enum ErrorCode {
    /// The request is at fault and the user can correct it.
    ValidationError,
    /// Another writer got there first; read again and retry.
    ConcurrencyError,
    /// The operation is not allowed in the current state.
    BusinessProcessError,
    /// A row that the operation names does not exist.
    NoResults,
    /// More than one row answered where one was expected.
    MultipleResultsWhenOneExpected,
    /// A row would break a constraint of its table.
    UpdateError,
    /// A quantity left the range of its integer type, or no identifier is left.
    InternalError,
}

/// Why an operation failed, with the parameters a client needs for its message.
#[derive(Clone, Copy, PartialEq, Eq, Debug, Hash, Structural)]
pub enum DatabaseError {
    /// No hold and no code carries the redemption code.
    RedemptionCodeInvalid,
    /// The code's validity window does not contain the current time.
    CodeNotValid { code_id: Id, start_date: Timestamp, end_date: Timestamp },
    /// The hold ended before the current time.
    HoldNotValid { id: Id, end_at: Timestamp },
    /// The user would hold more than the limit of a ticket type or hold.
    LimitPerPersonExceeded {
        ticket_type_id: Id,
        hold_id: Option<Id>,
        limit_per_person: i64,
        attempted_quantity: u64,
    },
    /// The cart would hold items of more than one event.
    CartEventLimitReached { order_id: Id },
    /// Fewer instances can be claimed than were asked for.
    OutOfStock { ticket_type_id: Id, hold_id: Option<Id>, requested: u32 },
    /// The order has left draft status and can no longer be changed.
    OrderNotDraft,
    /// A discount code gives neither cents nor a percentage.
    DiscountRequired,
    /// A discount code gives both cents and a percentage.
    OnlySingleDiscountTypeAllowed,
    /// The order row no longer has the version that the caller read.
    OrderVersionMismatch,
    /// A live cart of the user exists that the user row does not point to.
    CartCreationRace,
    /// The user row changed since it was read.
    LastCartChanged,
    /// The order row expired or changed while its expiry was written.
    ExpiryUpdateRace,
    /// Items may only be deleted from a draft order.
    DeleteFromNonDraftOrder,
    /// The expiry of a cart that holds items cannot be cleared.
    ExpiryOfNonEmptyCart,
    /// A paid order cannot go back to draft.
    ResetOfPaidOrder,
    /// A cancelled order cannot go back to draft.
    ResetOfCancelledOrder,
    /// The order's status cannot change in this way.
    InvalidStatusChange { from: OrderStatus, to: OrderStatus },
    /// The order item belongs to another order.
    ItemNotInOrder,
    /// A ticket or per-unit fee line is refunded ticket by ticket.
    TicketRequiredForRefund,
    /// The ticket, or its fee, has been refunded before.
    AlreadyRefunded,
    /// The ticket has moved to another wallet.
    TicketTransferred,
    /// Only items of a paid order are refunded.
    RefundOfUnpaidOrder,
    /// Every unit of the item has been refunded.
    NothingLeftToRefund,
    /// Fewer instances were held by the item than were to be released.
    ReleaseCountMismatch,
    /// No row with the identifier.
    NotFound { table: Tables, id: Id },
    /// The order holds no item that belongs to an event.
    NoEventForOrder,
    /// No pricing period of the ticket type is current.
    NoTicketPricing { ticket_type_id: Id },
    /// More than one pricing period of the ticket type is current.
    AmbiguousTicketPricing { ticket_type_id: Id },
    /// The row would hold more refunded units than units.
    RefundedQuantityConstraint,
    /// An amount or a counter left the range of its type.
    ArithmeticOverflow,
    /// Every identifier has been handed out.
    IdentifiersExhausted,
}

impl DatabaseError {
    /// The kind of the failure.
    pub open spec fn spec_error_code(self) -> ErrorCode {
        match self {
            DatabaseError::RedemptionCodeInvalid
            | DatabaseError::CodeNotValid { .. }
            | DatabaseError::HoldNotValid { .. }
            | DatabaseError::LimitPerPersonExceeded { .. }
            | DatabaseError::CartEventLimitReached { .. }
            | DatabaseError::OutOfStock { .. }
            | DatabaseError::OrderNotDraft
            | DatabaseError::DiscountRequired
            | DatabaseError::OnlySingleDiscountTypeAllowed => ErrorCode::ValidationError,
            DatabaseError::OrderVersionMismatch
            | DatabaseError::CartCreationRace
            | DatabaseError::LastCartChanged
            | DatabaseError::ExpiryUpdateRace => ErrorCode::ConcurrencyError,
            DatabaseError::DeleteFromNonDraftOrder
            | DatabaseError::ExpiryOfNonEmptyCart
            | DatabaseError::ResetOfPaidOrder
            | DatabaseError::ResetOfCancelledOrder
            | DatabaseError::InvalidStatusChange { .. }
            | DatabaseError::ItemNotInOrder
            | DatabaseError::TicketRequiredForRefund
            | DatabaseError::AlreadyRefunded
            | DatabaseError::TicketTransferred
            | DatabaseError::RefundOfUnpaidOrder
            | DatabaseError::NothingLeftToRefund
            | DatabaseError::ReleaseCountMismatch => ErrorCode::BusinessProcessError,
            DatabaseError::NotFound { .. }
            | DatabaseError::NoEventForOrder
            | DatabaseError::NoTicketPricing { .. } => ErrorCode::NoResults,
            DatabaseError::AmbiguousTicketPricing { .. } => ErrorCode::MultipleResultsWhenOneExpected,
            DatabaseError::RefundedQuantityConstraint => ErrorCode::UpdateError,
            DatabaseError::ArithmeticOverflow
            | DatabaseError::IdentifiersExhausted => ErrorCode::InternalError,
        }
    }

    /// The kind of the failure: what the caller should do about it.
    #[verifier::when_used_as_spec(spec_error_code)]
    pub fn error_code(self) -> (code: ErrorCode)
        ensures
            code == self.spec_error_code(),
    {
        match self {
            DatabaseError::RedemptionCodeInvalid
            | DatabaseError::CodeNotValid { .. }
            | DatabaseError::HoldNotValid { .. }
            | DatabaseError::LimitPerPersonExceeded { .. }
            | DatabaseError::CartEventLimitReached { .. }
            | DatabaseError::OutOfStock { .. }
            | DatabaseError::OrderNotDraft
            | DatabaseError::DiscountRequired
            | DatabaseError::OnlySingleDiscountTypeAllowed => ErrorCode::ValidationError,
            DatabaseError::OrderVersionMismatch
            | DatabaseError::CartCreationRace
            | DatabaseError::LastCartChanged
            | DatabaseError::ExpiryUpdateRace => ErrorCode::ConcurrencyError,
            DatabaseError::DeleteFromNonDraftOrder
            | DatabaseError::ExpiryOfNonEmptyCart
            | DatabaseError::ResetOfPaidOrder
            | DatabaseError::ResetOfCancelledOrder
            | DatabaseError::InvalidStatusChange { .. }
            | DatabaseError::ItemNotInOrder
            | DatabaseError::TicketRequiredForRefund
            | DatabaseError::AlreadyRefunded
            | DatabaseError::TicketTransferred
            | DatabaseError::RefundOfUnpaidOrder
            | DatabaseError::NothingLeftToRefund
            | DatabaseError::ReleaseCountMismatch => ErrorCode::BusinessProcessError,
            DatabaseError::NotFound { .. }
            | DatabaseError::NoEventForOrder
            | DatabaseError::NoTicketPricing { .. } => ErrorCode::NoResults,
            DatabaseError::AmbiguousTicketPricing { .. } => ErrorCode::MultipleResultsWhenOneExpected,
            DatabaseError::RefundedQuantityConstraint => ErrorCode::UpdateError,
            DatabaseError::ArithmeticOverflow
            | DatabaseError::IdentifiersExhausted => ErrorCode::InternalError,
        }
    }
}

} // verus!
