//! The tables. [`Catalog`] holds what the rules only read; [`Store`] holds what
//! they change. Rows are found by identifier: the first row that carries it.

use vstd::prelude::*;
use crate::errors::DatabaseError;
use crate::model::{
    Code, DomainAction, DomainEvent, DomainEventTicket, Event, FeeScheduleRange, Hold, Order,
    OrderItem, Payment, RedeemKey, RefundedTicket, TicketInstance, TicketPricing, TicketType, User,
};
use crate::types::{Id, Tables};

verus! {

/// A row with an identifier.
pub trait Keyed {
    /// The identifier of the row.
    spec fn key(&self) -> Id;

    /// The identifier of the row.
    fn get_key(&self) -> (k: Id)
        ensures
            k == self.key(),
    ;
}

impl Keyed for User {
    open spec fn key(&self) -> Id {
        self.id
    }

    fn get_key(&self) -> (k: Id) {
        self.id
    }
}

impl Keyed for Order {
    open spec fn key(&self) -> Id {
        self.id
    }

    fn get_key(&self) -> (k: Id) {
        self.id
    }
}

impl Keyed for OrderItem {
    open spec fn key(&self) -> Id {
        self.id
    }

    fn get_key(&self) -> (k: Id) {
        self.id
    }
}

impl Keyed for TicketInstance {
    open spec fn key(&self) -> Id {
        self.id
    }

    fn get_key(&self) -> (k: Id) {
        self.id
    }
}

impl Keyed for Hold {
    open spec fn key(&self) -> Id {
        self.id
    }

    fn get_key(&self) -> (k: Id) {
        self.id
    }
}

impl Keyed for Code {
    open spec fn key(&self) -> Id {
        self.id
    }

    fn get_key(&self) -> (k: Id) {
        self.id
    }
}

impl Keyed for TicketType {
    open spec fn key(&self) -> Id {
        self.id
    }

    fn get_key(&self) -> (k: Id) {
        self.id
    }
}

impl Keyed for Event {
    open spec fn key(&self) -> Id {
        self.id
    }

    fn get_key(&self) -> (k: Id) {
        self.id
    }
}

/// The index of the first row at or after `from` that carries `id`.
pub open spec fn index_from<T: Keyed>(rows: Seq<T>, id: Id, from: int) -> Option<int>
    decreases rows.len() - from,
{
    if from < 0 || from >= rows.len() {
        None
    } else if rows[from].key() == id {
        Some(from)
    } else {
        index_from(rows, id, from + 1)
    }
}

/// The index of the first row that carries `id`.
pub open spec fn index_of<T: Keyed>(rows: Seq<T>, id: Id) -> Option<int> {
    index_from(rows, id, 0)
}

/// What `index_from` finds is the first match; where it finds nothing there is none.
pub proof fn lemma_index_from<T: Keyed>(rows: Seq<T>, id: Id, from: int)
    requires
        0 <= from,
    ensures
        match index_from(rows, id, from) {
            Some(i) => from <= i < rows.len() && rows[i].key() == id && forall|j: int|
                from <= j < i ==> rows[j].key() != id,
            None => forall|j: int| from <= j < rows.len() ==> rows[j].key() != id,
        },
    decreases rows.len() - from,
{
    if from < rows.len() && rows[from].key() != id {
        lemma_index_from(rows, id, from + 1);
    }
}

/// `index_of` finds the first row that carries `id`, or none where no row does.
pub proof fn lemma_index_of<T: Keyed>(rows: Seq<T>, id: Id)
    ensures
        match index_of(rows, id) {
            Some(i) => 0 <= i < rows.len() && rows[i].key() == id && forall|j: int|
                0 <= j < i ==> rows[j].key() != id,
            None => forall|j: int| 0 <= j < rows.len() ==> rows[j].key() != id,
        },
{
    lemma_index_from(rows, id, 0);
}

/// The position of the first row that carries `id`.
pub fn find_index<T: Keyed>(rows: &Vec<T>, id: Id) -> (found: Option<usize>)
    ensures
        match found {
            Some(i) => index_of(rows@, id) == Some(i as int) && i < rows.len() && rows[i as int].key() == id,
            None => index_of(rows@, id) is None,
        },
{
    let mut k: usize = 0;
    while k < rows.len()
        invariant
            k <= rows.len(),
            index_from(rows@, id, k as int) == index_of(rows@, id),
        decreases rows.len() - k,
    {
        if rows[k].get_key() == id {
            return Some(k);
        }
        k += 1;
    }
    None
}

fn copy_rows<T: Copy>(rows: &Vec<T>) -> (copy: Vec<T>)
    ensures
        copy@ == rows@,
{
    let mut copy: Vec<T> = Vec::new();
    let mut k: usize = 0;
    while k < rows.len()
        invariant
            k <= rows.len(),
            copy@ == rows@.take(k as int),
        decreases rows.len() - k,
    {
        copy.push(rows[k]);
        k += 1;
    }
    copy
}

fn clone_orders(rows: &Vec<Order>) -> (copy: Vec<Order>)
    ensures
        copy@ == rows@,
{
    let mut copy: Vec<Order> = Vec::new();
    let mut k: usize = 0;
    while k < rows.len()
        invariant
            k <= rows.len(),
            copy@ == rows@.take(k as int),
        decreases rows.len() - k,
    {
        copy.push(rows[k].clone());
        k += 1;
    }
    copy
}

fn clone_payments(rows: &Vec<Payment>) -> (copy: Vec<Payment>)
    ensures
        copy@ == rows@,
{
    let mut copy: Vec<Payment> = Vec::new();
    let mut k: usize = 0;
    while k < rows.len()
        invariant
            k <= rows.len(),
            copy@ == rows@.take(k as int),
        decreases rows.len() - k,
    {
        copy.push(rows[k].clone());
        k += 1;
    }
    copy
}

/// The tables that the rules read and never write.
#[derive(Debug, PartialEq, Eq)]
pub struct Catalog {
    pub holds: Vec<Hold>,
    pub codes: Vec<Code>,
    pub ticket_types: Vec<TicketType>,
    pub ticket_pricing: Vec<TicketPricing>,
    pub events: Vec<Event>,
    pub fee_schedule_ranges: Vec<FeeScheduleRange>,
    pub redeem_keys: Vec<RedeemKey>,
}

/// The contents of a [`Catalog`].
pub struct CatalogState {
    pub holds: Seq<Hold>,
    pub codes: Seq<Code>,
    pub ticket_types: Seq<TicketType>,
    pub ticket_pricing: Seq<TicketPricing>,
    pub events: Seq<Event>,
    pub fee_schedule_ranges: Seq<FeeScheduleRange>,
    pub redeem_keys: Seq<RedeemKey>,
}

impl View for Catalog {
    type V = CatalogState;

    open spec fn view(&self) -> CatalogState {
        CatalogState {
            holds: self.holds@,
            codes: self.codes@,
            ticket_types: self.ticket_types@,
            ticket_pricing: self.ticket_pricing@,
            events: self.events@,
            fee_schedule_ranges: self.fee_schedule_ranges@,
            redeem_keys: self.redeem_keys@,
        }
    }
}

impl Catalog {
    /// A catalog without rows.
    pub fn new() -> (catalog: Catalog)
        ensures
            catalog@.holds.len() == 0,
            catalog@.codes.len() == 0,
            catalog@.ticket_types.len() == 0,
            catalog@.ticket_pricing.len() == 0,
            catalog@.events.len() == 0,
            catalog@.fee_schedule_ranges.len() == 0,
            catalog@.redeem_keys.len() == 0,
    {
        Catalog {
            holds: Vec::new(),
            codes: Vec::new(),
            ticket_types: Vec::new(),
            ticket_pricing: Vec::new(),
            events: Vec::new(),
            fee_schedule_ranges: Vec::new(),
            redeem_keys: Vec::new(),
        }
    }
}

/// The tables that the rules write.
#[derive(Debug, PartialEq, Eq)]
pub struct Store {
    pub users: Vec<User>,
    pub orders: Vec<Order>,
    pub order_items: Vec<OrderItem>,
    pub ticket_instances: Vec<TicketInstance>,
    pub payments: Vec<Payment>,
    pub refunded_tickets: Vec<RefundedTicket>,
    pub domain_events: Vec<DomainEvent>,
    pub domain_event_tickets: Vec<DomainEventTicket>,
    pub domain_actions: Vec<DomainAction>,
    /// The identifier that the next new row gets.
    pub next_id: Id,
}

/// The contents of a [`Store`].
pub struct StoreState {
    pub users: Seq<User>,
    pub orders: Seq<Order>,
    pub order_items: Seq<OrderItem>,
    pub ticket_instances: Seq<TicketInstance>,
    pub payments: Seq<Payment>,
    pub refunded_tickets: Seq<RefundedTicket>,
    pub domain_events: Seq<DomainEvent>,
    pub domain_event_tickets: Seq<DomainEventTicket>,
    pub domain_actions: Seq<DomainAction>,
    pub next_id: Id,
}

impl View for Store {
    type V = StoreState;

    open spec fn view(&self) -> StoreState {
        StoreState {
            users: self.users@,
            orders: self.orders@,
            order_items: self.order_items@,
            ticket_instances: self.ticket_instances@,
            payments: self.payments@,
            refunded_tickets: self.refunded_tickets@,
            domain_events: self.domain_events@,
            domain_event_tickets: self.domain_event_tickets@,
            domain_actions: self.domain_actions@,
            next_id: self.next_id,
        }
    }
}

/// The state after a new identifier is taken, and the identifier; `None` where
/// none is left.
pub open spec fn take_id(s: StoreState) -> Option<(StoreState, Id)> {
    if s.next_id == u128::MAX {
        None
    } else {
        Some((StoreState { next_id: (s.next_id + 1) as u128, ..s }, s.next_id))
    }
}

impl Store {
    /// A store without rows, whose first new row gets `first_id`.
    pub fn new(first_id: Id) -> (store: Store)
        ensures
            store@.users.len() == 0,
            store@.orders.len() == 0,
            store@.order_items.len() == 0,
            store@.ticket_instances.len() == 0,
            store@.payments.len() == 0,
            store@.refunded_tickets.len() == 0,
            store@.domain_events.len() == 0,
            store@.domain_event_tickets.len() == 0,
            store@.domain_actions.len() == 0,
            store@.next_id == first_id,
    {
        Store {
            users: Vec::new(),
            orders: Vec::new(),
            order_items: Vec::new(),
            ticket_instances: Vec::new(),
            payments: Vec::new(),
            refunded_tickets: Vec::new(),
            domain_events: Vec::new(),
            domain_event_tickets: Vec::new(),
            domain_actions: Vec::new(),
            next_id: first_id,
        }
    }

    /// A copy of every table, to go back to when an operation fails half way.
    pub fn snapshot(&self) -> (copy: Store)
        ensures
            copy@ == self@,
    {
        Store {
            users: copy_rows(&self.users),
            orders: clone_orders(&self.orders),
            order_items: copy_rows(&self.order_items),
            ticket_instances: copy_rows(&self.ticket_instances),
            payments: clone_payments(&self.payments),
            refunded_tickets: copy_rows(&self.refunded_tickets),
            domain_events: copy_rows(&self.domain_events),
            domain_event_tickets: copy_rows(&self.domain_event_tickets),
            domain_actions: copy_rows(&self.domain_actions),
            next_id: self.next_id,
        }
    }

    /// Takes the next identifier.
    pub fn allocate_id(&mut self) -> (id: Result<Id, DatabaseError>)
        ensures
            match take_id(old(self)@) {
                Some((s, new_id)) => id == Ok::<Id, DatabaseError>(new_id) && final(self)@ == s,
                None => id == Err::<Id, DatabaseError>(DatabaseError::IdentifiersExhausted)
                    && final(self)@ == old(self)@,
            },
    {
        if self.next_id == u128::MAX {
            return Err(DatabaseError::IdentifiersExhausted);
        }
        let id = self.next_id;
        self.next_id = id + 1;
        Ok(id)
    }
}

impl Hold {
    /// The first hold with the identifier `id`.
    pub fn find(id: Id, catalog: &Catalog) -> (res: Result<&Hold, DatabaseError>)
        ensures
            match index_of(catalog@.holds, id) {
                Some(i) => res is Ok && *res->Ok_0 == catalog@.holds[i],
                None => res == Err::<&Hold, DatabaseError>(
                    DatabaseError::NotFound { table: Tables::Holds, id },
                ),
            },
    {
        match find_index(&catalog.holds, id) {
            Some(i) => Ok(&catalog.holds[i]),
            None => Err(DatabaseError::NotFound { table: Tables::Holds, id }),
        }
    }
}

impl Code {
    /// The first code with the identifier `id`.
    pub fn find(id: Id, catalog: &Catalog) -> (res: Result<&Code, DatabaseError>)
        ensures
            match index_of(catalog@.codes, id) {
                Some(i) => res is Ok && *res->Ok_0 == catalog@.codes[i],
                None => res == Err::<&Code, DatabaseError>(
                    DatabaseError::NotFound { table: Tables::Codes, id },
                ),
            },
    {
        match find_index(&catalog.codes, id) {
            Some(i) => Ok(&catalog.codes[i]),
            None => Err(DatabaseError::NotFound { table: Tables::Codes, id }),
        }
    }
}

impl Event {
    /// The first event with the identifier `id`.
    pub fn find(id: Id, catalog: &Catalog) -> (res: Result<Event, DatabaseError>)
        ensures
            match index_of(catalog@.events, id) {
                Some(i) => res == Ok::<Event, DatabaseError>(catalog@.events[i]),
                None => res == Err::<Event, DatabaseError>(
                    DatabaseError::NotFound { table: Tables::Events, id },
                ),
            },
    {
        match find_index(&catalog.events, id) {
            Some(i) => Ok(catalog.events[i]),
            None => Err(DatabaseError::NotFound { table: Tables::Events, id }),
        }
    }
}

impl TicketType {
    /// The first ticket type with the identifier `id`.
    pub fn find(id: Id, catalog: &Catalog) -> (res: Result<TicketType, DatabaseError>)
        ensures
            match index_of(catalog@.ticket_types, id) {
                Some(i) => res == Ok::<TicketType, DatabaseError>(catalog@.ticket_types[i]),
                None => res == Err::<TicketType, DatabaseError>(
                    DatabaseError::NotFound { table: Tables::TicketTypes, id },
                ),
            },
    {
        match find_index(&catalog.ticket_types, id) {
            Some(i) => Ok(catalog.ticket_types[i]),
            None => Err(DatabaseError::NotFound { table: Tables::TicketTypes, id }),
        }
    }
}

impl User {
    /// The first user with the identifier `id`.
    pub fn find(id: Id, store: &Store) -> (res: Result<User, DatabaseError>)
        ensures
            match index_of(store@.users, id) {
                Some(i) => res == Ok::<User, DatabaseError>(store@.users[i]),
                None => res == Err::<User, DatabaseError>(
                    DatabaseError::NotFound { table: Tables::Users, id },
                ),
            },
    {
        match find_index(&store.users, id) {
            Some(i) => Ok(store.users[i]),
            None => Err(DatabaseError::NotFound { table: Tables::Users, id }),
        }
    }
}

} // verus!
