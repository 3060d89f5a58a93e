//! The inventory ledger: which ticket is free, held, bought or used.
//!
//! An instance is free for a claim while it is `Available`, or `Reserved` with a
//! reservation that has run out. A claim takes the first free instances of the
//! ticket type, in the order of the table.

use vstd::prelude::*;
use crate::errors::DatabaseError;
use crate::model::{OrderItem, TicketInstance};
use crate::store::{Store, StoreState};
use crate::types::{Id, TicketInstanceStatus, Timestamp};

verus! {

/// Whether a claim for `ticket_type_id` under `hold_id` may take `t` at `now`.
pub open spec fn claimable(
    t: TicketInstance,
    ticket_type_id: Id,
    hold_id: Option<Id>,
    now: Timestamp,
) -> bool {
    &&& t.ticket_type_id == ticket_type_id
    &&& t.hold_id == hold_id
    &&& (t.status == TicketInstanceStatus::Available || (t.status
        == TicketInstanceStatus::Reserved && t.reserved_until is Some && t.reserved_until->0
        < now))
}

/// How many of the first `k` instances a claim may take.
pub open spec fn claimable_before(
    ts: Seq<TicketInstance>,
    ticket_type_id: Id,
    hold_id: Option<Id>,
    now: Timestamp,
    k: int,
) -> nat
    decreases k,
{
    if k <= 0 {
        0
    } else {
        claimable_before(ts, ticket_type_id, hold_id, now, k - 1) + if claimable(
            ts[k - 1],
            ticket_type_id,
            hold_id,
            now,
        ) {
            1nat
        } else {
            0nat
        }
    }
}

/// How many instances a claim for `ticket_type_id` under `hold_id` may take at `now`.
pub open spec fn available_count(
    ts: Seq<TicketInstance>,
    ticket_type_id: Id,
    hold_id: Option<Id>,
    now: Timestamp,
) -> nat {
    claimable_before(ts, ticket_type_id, hold_id, now, ts.len() as int)
}

/// The instance once `order_item_id` holds it until `expires_at`.
pub open spec fn reserved_row(
    t: TicketInstance,
    order_item_id: Id,
    expires_at: Option<Timestamp>,
) -> TicketInstance {
    TicketInstance {
        order_item_id: Some(order_item_id),
        reserved_until: expires_at,
        status: TicketInstanceStatus::Reserved,
        ..t
    }
}

/// The table after the first `quantity` free instances went to `order_item_id`.
pub open spec fn reserve_rows(
    ts: Seq<TicketInstance>,
    order_item_id: Id,
    expires_at: Option<Timestamp>,
    ticket_type_id: Id,
    hold_id: Option<Id>,
    quantity: nat,
    now: Timestamp,
) -> Seq<TicketInstance> {
    Seq::new(
        ts.len(),
        |i: int|
            if claimable(ts[i], ticket_type_id, hold_id, now) && claimable_before(
                ts,
                ticket_type_id,
                hold_id,
                now,
                i,
            ) < quantity {
                reserved_row(ts[i], order_item_id, expires_at)
            } else {
                ts[i]
            },
    )
}

/// A claim of `quantity` instances: all of them, or none and out of stock.
pub open spec fn spec_reserve_tickets(
    ts: Seq<TicketInstance>,
    order_item_id: Id,
    expires_at: Option<Timestamp>,
    ticket_type_id: Id,
    hold_id: Option<Id>,
    quantity: u32,
    now: Timestamp,
) -> Result<Seq<TicketInstance>, DatabaseError> {
    if available_count(ts, ticket_type_id, hold_id, now) < quantity {
        Err(DatabaseError::OutOfStock { ticket_type_id, hold_id, requested: quantity })
    } else {
        Ok(reserve_rows(ts, order_item_id, expires_at, ticket_type_id, hold_id, quantity as nat, now))
    }
}

/// Whether `order_item_id` holds `t` without having bought it.
pub open spec fn held_by(t: TicketInstance, order_item_id: Id) -> bool {
    t.order_item_id == Some(order_item_id) && t.status == TicketInstanceStatus::Reserved
}

/// How many of the first `k` instances `order_item_id` holds.
pub open spec fn held_before(ts: Seq<TicketInstance>, order_item_id: Id, k: int) -> nat
    decreases k,
{
    if k <= 0 {
        0
    } else {
        held_before(ts, order_item_id, k - 1) + if held_by(ts[k - 1], order_item_id) {
            1nat
        } else {
            0nat
        }
    }
}

/// How many instances `order_item_id` holds.
pub open spec fn held_count(ts: Seq<TicketInstance>, order_item_id: Id) -> nat {
    held_before(ts, order_item_id, ts.len() as int)
}

/// The instance once it is back in the pool.
pub open spec fn released_row(t: TicketInstance) -> TicketInstance {
    TicketInstance {
        order_item_id: None,
        owner_id: None,
        reserved_until: None,
        status: TicketInstanceStatus::Available,
        ..t
    }
}

/// The table after the first `quantity` instances held by `order_item_id` went back.
pub open spec fn release_rows(ts: Seq<TicketInstance>, order_item_id: Id, quantity: nat) -> Seq<
    TicketInstance,
> {
    Seq::new(
        ts.len(),
        |i: int|
            if held_by(ts[i], order_item_id) && held_before(ts, order_item_id, i) < quantity {
                released_row(ts[i])
            } else {
                ts[i]
            },
    )
}

/// A release of `quantity` held instances: all of them, or none and an error.
pub open spec fn spec_release_tickets(
    ts: Seq<TicketInstance>,
    order_item_id: Id,
    quantity: u32,
) -> Result<Seq<TicketInstance>, DatabaseError> {
    if held_count(ts, order_item_id) < quantity {
        Err(DatabaseError::ReleaseCountMismatch)
    } else {
        Ok(release_rows(ts, order_item_id, quantity as nat))
    }
}

/// The table after every instance held by `order_item_id` was bought for `owner_id`.
pub open spec fn spec_mark_as_purchased(
    ts: Seq<TicketInstance>,
    order_item_id: Id,
    owner_id: Id,
) -> Seq<TicketInstance> {
    Seq::new(
        ts.len(),
        |i: int|
            if held_by(ts[i], order_item_id) {
                TicketInstance {
                    status: TicketInstanceStatus::Purchased,
                    owner_id: Some(owner_id),
                    ..ts[i]
                }
            } else {
                ts[i]
            },
    )
}

/// The table after every instance held by `order_item_id` got the new end of
/// its reservation.
pub open spec fn spec_update_reserved_time(
    ts: Seq<TicketInstance>,
    order_item_id: Id,
    reserved_until: Timestamp,
) -> Seq<TicketInstance> {
    Seq::new(
        ts.len(),
        |i: int|
            if held_by(ts[i], order_item_id) {
                TicketInstance { reserved_until: Some(reserved_until), ..ts[i] }
            } else {
                ts[i]
            },
    )
}

/// How many of the first `k` instances belong to `order_item_id`, whatever
/// their status.
pub open spec fn linked_before(ts: Seq<TicketInstance>, order_item_id: Id, k: int) -> nat
    decreases k,
{
    if k <= 0 {
        0
    } else {
        linked_before(ts, order_item_id, k - 1) + if ts[k - 1].order_item_id == Some(
            order_item_id,
        ) {
            1nat
        } else {
            0nat
        }
    }
}

/// How many instances belong to `order_item_id`, whatever their status.
pub open spec fn linked_count(ts: Seq<TicketInstance>, order_item_id: Id) -> nat {
    linked_before(ts, order_item_id, ts.len() as int)
}

fn is_claimable(t: &TicketInstance, ticket_type_id: Id, hold_id: Option<Id>, now: Timestamp) -> (yes:
    bool)
    ensures
        yes == claimable(*t, ticket_type_id, hold_id, now),
{
    let free = match t.status {
        TicketInstanceStatus::Available => true,
        TicketInstanceStatus::Reserved => match t.reserved_until {
            Some(until) => until < now,
            None => false,
        },
        _ => false,
    };
    let same_hold = match (t.hold_id, hold_id) {
        (Some(a), Some(b)) => a == b,
        (None, None) => true,
        _ => false,
    };
    t.ticket_type_id == ticket_type_id && same_hold && free
}

fn is_linked(t: &TicketInstance, order_item_id: Id) -> (yes: bool)
    ensures
        yes == (t.order_item_id == Some(order_item_id)),
{
    match t.order_item_id {
        Some(id) => id == order_item_id,
        None => false,
    }
}

fn is_held_by(t: &TicketInstance, order_item_id: Id) -> (yes: bool)
    ensures
        yes == held_by(*t, order_item_id),
{
    is_linked(t, order_item_id) && t.status == TicketInstanceStatus::Reserved
}

impl TicketInstance {
    /// How many instances a claim for `ticket_type_id` under `hold_id` may take at `now`.
    pub fn count_available(
        ticket_type_id: Id,
        hold_id: Option<Id>,
        store: &Store,
        now: Timestamp,
    ) -> (count: usize)
        ensures
            count == available_count(store@.ticket_instances, ticket_type_id, hold_id, now),
    {
        let mut count: usize = 0;
        let mut k: usize = 0;
        while k < store.ticket_instances.len()
            invariant
                k <= store.ticket_instances.len(),
                count <= k,
                count == claimable_before(
                    store@.ticket_instances,
                    ticket_type_id,
                    hold_id,
                    now,
                    k as int,
                ),
            decreases store.ticket_instances.len() - k,
        {
            if is_claimable(&store.ticket_instances[k], ticket_type_id, hold_id, now) {
                count += 1;
            }
            k += 1;
        }
        count
    }

    /// Claims `quantity` free instances of `ticket_type_id` under `hold_id` for
    /// `order_item`, until `expires_at`: all of them, or none.
    pub fn reserve_tickets(
        order_item: &OrderItem,
        expires_at: Option<Timestamp>,
        ticket_type_id: Id,
        hold_id: Option<Id>,
        quantity: u32,
        store: &mut Store,
        now: Timestamp,
    ) -> (res: Result<(), DatabaseError>)
        ensures
            match spec_reserve_tickets(
                old(store)@.ticket_instances,
                order_item.id,
                expires_at,
                ticket_type_id,
                hold_id,
                quantity,
                now,
            ) {
                Ok(ts) => res is Ok && final(store)@ == (StoreState {
                    ticket_instances: ts,
                    ..old(store)@
                }),
                Err(e) => res == Err::<(), DatabaseError>(e) && final(store)@ == old(store)@,
            },
    {
        let free = TicketInstance::count_available(ticket_type_id, hold_id, store, now);
        if free < quantity as usize {
            return Err(DatabaseError::OutOfStock { ticket_type_id, hold_id, requested: quantity });
        }
        let ghost before = store@.ticket_instances;
        let ghost goal = reserve_rows(
            before,
            order_item.id,
            expires_at,
            ticket_type_id,
            hold_id,
            quantity as nat,
            now,
        );
        let mut claimed: u32 = 0;
        let mut k: usize = 0;
        while k < store.ticket_instances.len()
            invariant
                k <= store.ticket_instances.len(),
                store.ticket_instances.len() == before.len(),
                claimed <= quantity,
                claimed as nat == if claimable_before(before, ticket_type_id, hold_id, now, k as int)
                    < quantity {
                    claimable_before(before, ticket_type_id, hold_id, now, k as int)
                } else {
                    quantity as nat
                },
                forall|j: int| 0 <= j < k ==> store.ticket_instances[j] == goal[j],
                forall|j: int| k <= j < before.len() ==> store.ticket_instances[j] == before[j],
                store@ == (StoreState { ticket_instances: store@.ticket_instances, ..old(store)@ }),
                goal == reserve_rows(
                    before,
                    order_item.id,
                    expires_at,
                    ticket_type_id,
                    hold_id,
                    quantity as nat,
                    now,
                ),
            decreases store.ticket_instances.len() - k,
        {
            if claimed < quantity && is_claimable(
                &store.ticket_instances[k],
                ticket_type_id,
                hold_id,
                now,
            ) {
                store.ticket_instances[k].order_item_id = Some(order_item.id);
                store.ticket_instances[k].reserved_until = expires_at;
                store.ticket_instances[k].status = TicketInstanceStatus::Reserved;
                claimed += 1;
            }
            k += 1;
        }
        assert(store@.ticket_instances =~= goal);
        Ok(())
    }

    /// How many instances `order_item_id` holds without having bought them.
    pub fn count_held(order_item_id: Id, store: &Store) -> (count: usize)
        ensures
            count == held_count(store@.ticket_instances, order_item_id),
    {
        let mut count: usize = 0;
        let mut k: usize = 0;
        while k < store.ticket_instances.len()
            invariant
                k <= store.ticket_instances.len(),
                count <= k,
                count == held_before(store@.ticket_instances, order_item_id, k as int),
            decreases store.ticket_instances.len() - k,
        {
            if is_held_by(&store.ticket_instances[k], order_item_id) {
                count += 1;
            }
            k += 1;
        }
        count
    }

    /// Gives `quantity` of the instances that `order_item` holds back to the
    /// pool: all of them, or none.
    pub fn release_tickets(order_item: &OrderItem, quantity: u32, store: &mut Store) -> (res:
        Result<(), DatabaseError>)
        ensures
            match spec_release_tickets(old(store)@.ticket_instances, order_item.id, quantity) {
                Ok(ts) => res is Ok && final(store)@ == (StoreState {
                    ticket_instances: ts,
                    ..old(store)@
                }),
                Err(e) => res == Err::<(), DatabaseError>(e) && final(store)@ == old(store)@,
            },
    {
        let held = TicketInstance::count_held(order_item.id, store);
        if held < quantity as usize {
            return Err(DatabaseError::ReleaseCountMismatch);
        }
        let ghost before = store@.ticket_instances;
        let ghost goal = release_rows(before, order_item.id, quantity as nat);
        let mut released: u32 = 0;
        let mut k: usize = 0;
        while k < store.ticket_instances.len()
            invariant
                k <= store.ticket_instances.len(),
                store.ticket_instances.len() == before.len(),
                released <= quantity,
                released as nat == if held_before(before, order_item.id, k as int) < quantity {
                    held_before(before, order_item.id, k as int)
                } else {
                    quantity as nat
                },
                forall|j: int| 0 <= j < k ==> store.ticket_instances[j] == goal[j],
                forall|j: int| k <= j < before.len() ==> store.ticket_instances[j] == before[j],
                store@ == (StoreState { ticket_instances: store@.ticket_instances, ..old(store)@ }),
                goal == release_rows(before, order_item.id, quantity as nat),
            decreases store.ticket_instances.len() - k,
        {
            if released < quantity && is_held_by(&store.ticket_instances[k], order_item.id) {
                store.ticket_instances[k].order_item_id = None;
                store.ticket_instances[k].owner_id = None;
                store.ticket_instances[k].reserved_until = None;
                store.ticket_instances[k].status = TicketInstanceStatus::Available;
                released += 1;
            }
            k += 1;
        }
        assert(store@.ticket_instances =~= goal);
        Ok(())
    }

    /// Marks every instance that `order_item` holds as bought, for `owner_id`.
    pub fn mark_as_purchased(order_item: &OrderItem, owner_id: Id, store: &mut Store)
        ensures
            final(store)@ == (StoreState {
                ticket_instances: spec_mark_as_purchased(
                    old(store)@.ticket_instances,
                    order_item.id,
                    owner_id,
                ),
                ..old(store)@
            }),
    {
        let ghost before = store@.ticket_instances;
        let ghost goal = spec_mark_as_purchased(before, order_item.id, owner_id);
        let mut k: usize = 0;
        while k < store.ticket_instances.len()
            invariant
                k <= store.ticket_instances.len(),
                store.ticket_instances.len() == before.len(),
                forall|j: int| 0 <= j < k ==> store.ticket_instances[j] == goal[j],
                forall|j: int| k <= j < before.len() ==> store.ticket_instances[j] == before[j],
                store@ == (StoreState { ticket_instances: store@.ticket_instances, ..old(store)@ }),
                goal == spec_mark_as_purchased(before, order_item.id, owner_id),
            decreases store.ticket_instances.len() - k,
        {
            if is_held_by(&store.ticket_instances[k], order_item.id) {
                store.ticket_instances[k].status = TicketInstanceStatus::Purchased;
                store.ticket_instances[k].owner_id = Some(owner_id);
            }
            k += 1;
        }
        assert(store@.ticket_instances =~= goal);
    }

    /// Moves the end of the reservation of every instance that `order_item`
    /// holds to `reserved_until`.
    pub fn update_reserved_time(order_item: &OrderItem, reserved_until: Timestamp, store: &mut Store)
        ensures
            final(store)@ == (StoreState {
                ticket_instances: spec_update_reserved_time(
                    old(store)@.ticket_instances,
                    order_item.id,
                    reserved_until,
                ),
                ..old(store)@
            }),
    {
        let ghost before = store@.ticket_instances;
        let ghost goal = spec_update_reserved_time(before, order_item.id, reserved_until);
        let mut k: usize = 0;
        while k < store.ticket_instances.len()
            invariant
                k <= store.ticket_instances.len(),
                store.ticket_instances.len() == before.len(),
                forall|j: int| 0 <= j < k ==> store.ticket_instances[j] == goal[j],
                forall|j: int| k <= j < before.len() ==> store.ticket_instances[j] == before[j],
                store@ == (StoreState { ticket_instances: store@.ticket_instances, ..old(store)@ }),
                goal == spec_update_reserved_time(before, order_item.id, reserved_until),
            decreases store.ticket_instances.len() - k,
        {
            if is_held_by(&store.ticket_instances[k], order_item.id) {
                store.ticket_instances[k].reserved_until = Some(reserved_until);
            }
            k += 1;
        }
        assert(store@.ticket_instances =~= goal);
    }

    /// How many instances belong to `order_item_id`, whatever their status.
    pub fn count_for_order_item(order_item_id: Id, store: &Store) -> (count: usize)
        ensures
            count == linked_count(store@.ticket_instances, order_item_id),
    {
        let mut count: usize = 0;
        let mut k: usize = 0;
        while k < store.ticket_instances.len()
            invariant
                k <= store.ticket_instances.len(),
                count <= k,
                count == linked_before(store@.ticket_instances, order_item_id, k as int),
            decreases store.ticket_instances.len() - k,
        {
            if is_linked(&store.ticket_instances[k], order_item_id) {
                count += 1;
            }
            k += 1;
        }
        count
    }
}

} // verus!
