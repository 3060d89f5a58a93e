//! Cart, order and ticket-inventory rules of an event-ticketing backend.
//!
//! The rows that the rules read or write are kept in memory: what is only
//! read in a [`store::Catalog`], what is written in a [`store::Store`]. An
//! [`model::Order`] value is a copy of one order row, as a caller read it.
//! Each operation states, over the views of catalog and store, which rows
//! it changes and when it fails; an operation that fails leaves store and
//! order as they were. Instants are passed in by the caller.
//!
//! The modules, from the rows upwards:
//! - [`types`], [`errors`], [`model`], [`store`]: tags, failures, rows, tables;
//! - [`inventory`], [`door`]: the ticket ledger and redemption at the door;
//! - [`redemption`], [`pricing`]: holds, codes and the price that applies;
//! - [`orders`], [`cart`], [`quantities`], [`fees`], [`checkout`],
//!   [`payments`], [`refunds`], [`queries`], [`display`]: the order;
//! - [`inventory_laws`], [`order_laws`], [`cart_laws`], [`fee_laws`],
//!   [`refund_laws`]: what holds of the operations whatever the store holds;
//! - [`identifiers`], [`roles`], [`refresh_token`], [`facebook`]: identifiers
//!   as text, roles, token claims and the handles of the Facebook client.

pub mod types;
pub mod roles;
pub mod errors;
pub mod model;
pub mod store;
pub mod filters;
pub mod inventory;
pub mod inventory_laws;
pub mod door;
pub mod domain_events;
pub mod order_items;
pub mod redemption;
pub mod pricing;
pub mod orders;
pub mod order_laws;
pub mod fees;
pub mod fee_laws;
pub mod quantities;
pub mod cart_laws;
pub mod cart;
pub mod checkout;
pub mod payments;
pub mod refunds;
pub mod queries;
pub mod display;
pub mod refund_laws;
pub mod identifiers;
pub mod refresh_token;
pub mod facebook;
