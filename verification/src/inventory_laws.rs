//! What holds of the inventory ledger whatever is asked of it: no ticket is
//! made or lost, and no more tickets are handed out than were free.

use vstd::prelude::*;
use crate::inventory::{
    available_count, claimable_before, reserve_rows, spec_mark_as_purchased, spec_release_tickets,
    spec_reserve_tickets,
};
use crate::model::TicketInstance;
use crate::types::{Id, TicketInstanceStatus, Timestamp};

verus! {

/// Where a ticket stands at a moment. A reservation that has run out counts
/// as free.
#[derive(PartialEq, Eq, Structural)]
pub enum Standing {
    Free,
    Held,
    Bought,
    Used,
    Void,
}

/// Where the ticket stands at `now`.
pub open spec fn standing(t: TicketInstance, now: Timestamp) -> Standing {
    match t.status {
        TicketInstanceStatus::Available => Standing::Free,
        TicketInstanceStatus::Reserved => if t.reserved_until is Some && t.reserved_until->0 < now {
            Standing::Free
        } else {
            Standing::Held
        },
        TicketInstanceStatus::Purchased => Standing::Bought,
        TicketInstanceStatus::Redeemed => Standing::Used,
        TicketInstanceStatus::Nullified => Standing::Void,
    }
}

/// How many of the first `k` tickets are of the ticket type.
pub open spec fn type_count_before(ts: Seq<TicketInstance>, ticket_type_id: Id, k: int) -> nat
    decreases k,
{
    if k <= 0 {
        0
    } else {
        type_count_before(ts, ticket_type_id, k - 1) + if ts[k - 1].ticket_type_id
            == ticket_type_id {
            1nat
        } else {
            0nat
        }
    }
}

/// How many tickets of the ticket type there are.
pub open spec fn type_count(ts: Seq<TicketInstance>, ticket_type_id: Id) -> nat {
    type_count_before(ts, ticket_type_id, ts.len() as int)
}

/// How many of the first `k` tickets are of the ticket type and stand so at `now`.
pub open spec fn standing_count_before(
    ts: Seq<TicketInstance>,
    ticket_type_id: Id,
    at: Standing,
    now: Timestamp,
    k: int,
) -> nat
    decreases k,
{
    if k <= 0 {
        0
    } else {
        standing_count_before(ts, ticket_type_id, at, now, k - 1) + if ts[k - 1].ticket_type_id
            == ticket_type_id && standing(ts[k - 1], now) == at {
            1nat
        } else {
            0nat
        }
    }
}

/// How many tickets of the ticket type stand so at `now`.
pub open spec fn standing_count(
    ts: Seq<TicketInstance>,
    ticket_type_id: Id,
    at: Standing,
    now: Timestamp,
) -> nat {
    standing_count_before(ts, ticket_type_id, at, now, ts.len() as int)
}

/// One request to the ledger.
pub enum InventoryOp {
    Reserve {
        order_item_id: Id,
        expires_at: Option<Timestamp>,
        ticket_type_id: Id,
        hold_id: Option<Id>,
        quantity: u32,
        now: Timestamp,
    },
    Release { order_item_id: Id, quantity: u32 },
    Purchase { order_item_id: Id, owner_id: Id },
}

/// The tickets after the request: a request that fails changes nothing.
pub open spec fn apply_op(ts: Seq<TicketInstance>, op: InventoryOp) -> Seq<TicketInstance> {
    match op {
        InventoryOp::Reserve { order_item_id, expires_at, ticket_type_id, hold_id, quantity, now } => {
            match spec_reserve_tickets(
                ts,
                order_item_id,
                expires_at,
                ticket_type_id,
                hold_id,
                quantity,
                now,
            ) {
                Ok(after) => after,
                Err(_) => ts,
            }
        },
        InventoryOp::Release { order_item_id, quantity } => match spec_release_tickets(
            ts,
            order_item_id,
            quantity,
        ) {
            Ok(after) => after,
            Err(_) => ts,
        },
        InventoryOp::Purchase { order_item_id, owner_id } => spec_mark_as_purchased(
            ts,
            order_item_id,
            owner_id,
        ),
    }
}

/// The tickets after the requests from the `k`th on, in turn.
pub open spec fn apply_ops_from(ts: Seq<TicketInstance>, ops: Seq<InventoryOp>, k: int) -> Seq<
    TicketInstance,
>
    decreases ops.len() - k,
{
    if k < 0 || k >= ops.len() {
        ts
    } else {
        apply_ops_from(apply_op(ts, ops[k]), ops, k + 1)
    }
}

/// Two tables hold the same tickets: as many, each of the same type, and
/// used or void in the one exactly where it is in the other.
pub open spec fn same_tickets(a: Seq<TicketInstance>, b: Seq<TicketInstance>) -> bool {
    &&& a.len() == b.len()
    &&& forall|i: int|
        0 <= i < a.len() ==> {
            &&& (#[trigger] a[i]).id == b[i].id
            &&& a[i].ticket_type_id == b[i].ticket_type_id
            &&& a[i].hold_id == b[i].hold_id
            &&& (a[i].status == TicketInstanceStatus::Redeemed) == (b[i].status
                == TicketInstanceStatus::Redeemed)
            &&& (a[i].status == TicketInstanceStatus::Nullified) == (b[i].status
                == TicketInstanceStatus::Nullified)
        }
}

/// Every ticket of a type stands in exactly one way: the five counts add up
/// to the number of tickets of the type.
pub proof fn lemma_standings_partition(
    ts: Seq<TicketInstance>,
    ticket_type_id: Id,
    now: Timestamp,
    k: int,
)
    requires
        0 <= k <= ts.len(),
    ensures
        standing_count_before(ts, ticket_type_id, Standing::Free, now, k) + standing_count_before(
            ts,
            ticket_type_id,
            Standing::Held,
            now,
            k,
        ) + standing_count_before(ts, ticket_type_id, Standing::Bought, now, k)
            + standing_count_before(ts, ticket_type_id, Standing::Used, now, k)
            + standing_count_before(ts, ticket_type_id, Standing::Void, now, k)
            == type_count_before(ts, ticket_type_id, k),
    decreases k,
{
    if k > 0 {
        lemma_standings_partition(ts, ticket_type_id, now, k - 1);
    }
}

/// Tables that hold the same tickets hold as many of each type, and as
/// many used and void ones.
pub proof fn lemma_same_tickets_counts(
    a: Seq<TicketInstance>,
    b: Seq<TicketInstance>,
    ticket_type_id: Id,
    now: Timestamp,
    k: int,
)
    requires
        same_tickets(a, b),
        0 <= k <= a.len(),
    ensures
        type_count_before(a, ticket_type_id, k) == type_count_before(b, ticket_type_id, k),
        standing_count_before(a, ticket_type_id, Standing::Used, now, k) == standing_count_before(
            b,
            ticket_type_id,
            Standing::Used,
            now,
            k,
        ),
        standing_count_before(a, ticket_type_id, Standing::Void, now, k) == standing_count_before(
            b,
            ticket_type_id,
            Standing::Void,
            now,
            k,
        ),
    decreases k,
{
    if k > 0 {
        lemma_same_tickets_counts(a, b, ticket_type_id, now, k - 1);
        assert(a[k - 1].id == b[k - 1].id);
    }
}

/// A request neither makes nor loses a ticket, and leaves used and void
/// tickets as they are.
pub proof fn lemma_op_keeps_tickets(ts: Seq<TicketInstance>, op: InventoryOp)
    ensures
        same_tickets(ts, apply_op(ts, op)),
{
}

proof fn lemma_conservation_from(
    ts: Seq<TicketInstance>,
    ops: Seq<InventoryOp>,
    k: int,
    ticket_type_id: Id,
    now: Timestamp,
)
    requires
        0 <= k,
    ensures
        ({
            let after = apply_ops_from(ts, ops, k);
            &&& same_tickets(ts, after)
            &&& type_count(after, ticket_type_id) == type_count(ts, ticket_type_id)
            &&& standing_count(after, ticket_type_id, Standing::Free, now) + standing_count(
                after,
                ticket_type_id,
                Standing::Held,
                now,
            ) + standing_count(after, ticket_type_id, Standing::Bought, now) + standing_count(
                after,
                ticket_type_id,
                Standing::Used,
                now,
            ) + standing_count(after, ticket_type_id, Standing::Void, now) == type_count(
                ts,
                ticket_type_id,
            )
            &&& standing_count(after, ticket_type_id, Standing::Used, now) == standing_count(
                ts,
                ticket_type_id,
                Standing::Used,
                now,
            )
            &&& standing_count(after, ticket_type_id, Standing::Void, now) == standing_count(
                ts,
                ticket_type_id,
                Standing::Void,
                now,
            )
            &&& standing_count(after, ticket_type_id, Standing::Held, now) + standing_count(
                after,
                ticket_type_id,
                Standing::Bought,
                now,
            ) <= type_count(ts, ticket_type_id)
        }),
    decreases ops.len() - k,
{
    if k < ops.len() {
        let next = apply_op(ts, ops[k]);
        lemma_op_keeps_tickets(ts, ops[k]);
        lemma_conservation_from(next, ops, k + 1, ticket_type_id, now);
        let after = apply_ops_from(ts, ops, k);
        assert(after == apply_ops_from(next, ops, k + 1));
        assert(same_tickets(ts, after)) by {
            assert forall|i: int| 0 <= i < ts.len() implies {
                &&& (#[trigger] ts[i]).id == after[i].id
                &&& ts[i].ticket_type_id == after[i].ticket_type_id
                &&& ts[i].hold_id == after[i].hold_id
                &&& (ts[i].status == TicketInstanceStatus::Redeemed) == (after[i].status
                    == TicketInstanceStatus::Redeemed)
                &&& (ts[i].status == TicketInstanceStatus::Nullified) == (after[i].status
                    == TicketInstanceStatus::Nullified)
            } by {
                assert(next[i].id == ts[i].id);
                assert(next[i].id == after[i].id);
            }
        }
        lemma_same_tickets_counts(ts, next, ticket_type_id, now, ts.len() as int);
    } else {
        lemma_standings_partition(ts, ticket_type_id, now, ts.len() as int);
    }
}

/// The tickets after all the requests, in turn.
pub open spec fn apply_ops(ts: Seq<TicketInstance>, ops: Seq<InventoryOp>) -> Seq<TicketInstance> {
    apply_ops_from(ts, ops, 0)
}

/// Inventory conservation. Whatever reservations, releases and purchases are
/// asked of the ledger, in whatever order, the number of tickets of a type
/// stays what it was; at every moment each of them is free, held, bought,
/// used or void, so that the five counts add up to that number; the used
/// and the void stay as many as they were; and the held and the bought
/// together are never more than there are tickets.
pub proof fn lemma_inventory_conservation(
    ts: Seq<TicketInstance>,
    ops: Seq<InventoryOp>,
    ticket_type_id: Id,
    now: Timestamp,
)
    ensures
        ({
            let after = apply_ops(ts, ops);
            &&& same_tickets(ts, after)
            &&& type_count(after, ticket_type_id) == type_count(ts, ticket_type_id)
            &&& standing_count(after, ticket_type_id, Standing::Free, now) + standing_count(
                after,
                ticket_type_id,
                Standing::Held,
                now,
            ) + standing_count(after, ticket_type_id, Standing::Bought, now) + standing_count(
                after,
                ticket_type_id,
                Standing::Used,
                now,
            ) + standing_count(after, ticket_type_id, Standing::Void, now) == type_count(
                ts,
                ticket_type_id,
            )
            &&& standing_count(after, ticket_type_id, Standing::Used, now) == standing_count(
                ts,
                ticket_type_id,
                Standing::Used,
                now,
            )
            &&& standing_count(after, ticket_type_id, Standing::Void, now) == standing_count(
                ts,
                ticket_type_id,
                Standing::Void,
                now,
            )
            &&& standing_count(after, ticket_type_id, Standing::Held, now) + standing_count(
                after,
                ticket_type_id,
                Standing::Bought,
                now,
            ) <= type_count(ts, ticket_type_id)
        }),
{
    lemma_conservation_from(ts, ops, 0, ticket_type_id, now);
}

/// A reservation that succeeds takes exactly as many tickets out of the
/// pool as it asked for, provided it does not run out before `now`.
pub proof fn lemma_reserve_takes(
    ts: Seq<TicketInstance>,
    order_item_id: Id,
    expires_at: Option<Timestamp>,
    ticket_type_id: Id,
    hold_id: Option<Id>,
    quantity: nat,
    now: Timestamp,
    k: int,
)
    requires
        0 <= k <= ts.len(),
        expires_at is None || expires_at->0 >= now,
    ensures
        claimable_before(
            reserve_rows(ts, order_item_id, expires_at, ticket_type_id, hold_id, quantity, now),
            ticket_type_id,
            hold_id,
            now,
            k,
        ) == if claimable_before(ts, ticket_type_id, hold_id, now, k) < quantity {
            0
        } else {
            claimable_before(ts, ticket_type_id, hold_id, now, k) - quantity
        },
    decreases k,
{
    if k > 0 {
        lemma_reserve_takes(
            ts,
            order_item_id,
            expires_at,
            ticket_type_id,
            hold_id,
            quantity,
            now,
            k - 1,
        );
    }
}

/// One reservation asked of a pool.
pub struct ReserveRequest {
    pub order_item_id: Id,
    pub expires_at: Option<Timestamp>,
    pub quantity: u32,
}

/// The tickets after one request to the pool of a ticket type and hold, and
/// how many tickets the request got.
pub open spec fn serve(
    ts: Seq<TicketInstance>,
    request: ReserveRequest,
    ticket_type_id: Id,
    hold_id: Option<Id>,
    now: Timestamp,
) -> (Seq<TicketInstance>, nat) {
    match spec_reserve_tickets(
        ts,
        request.order_item_id,
        request.expires_at,
        ticket_type_id,
        hold_id,
        request.quantity,
        now,
    ) {
        Ok(after) => (after, request.quantity as nat),
        Err(_) => (ts, 0),
    }
}

/// The tickets after the requests from the `k`th on were served in turn, and
/// how many tickets they got together.
pub open spec fn serve_from(
    ts: Seq<TicketInstance>,
    requests: Seq<ReserveRequest>,
    ticket_type_id: Id,
    hold_id: Option<Id>,
    now: Timestamp,
    k: int,
) -> (Seq<TicketInstance>, nat)
    decreases requests.len() - k,
{
    if k < 0 || k >= requests.len() {
        (ts, 0)
    } else {
        let (next, got) = serve(ts, requests[k], ticket_type_id, hold_id, now);
        let (last, more) = serve_from(next, requests, ticket_type_id, hold_id, now, k + 1);
        (last, got + more)
    }
}

proof fn lemma_no_oversell_from(
    ts: Seq<TicketInstance>,
    requests: Seq<ReserveRequest>,
    ticket_type_id: Id,
    hold_id: Option<Id>,
    now: Timestamp,
    k: int,
)
    requires
        0 <= k,
        forall|i: int|
            0 <= i < requests.len() ==> (#[trigger] requests[i]).expires_at is None
                || requests[i].expires_at->0 >= now,
    ensures
        ({
            let (after, granted) = serve_from(ts, requests, ticket_type_id, hold_id, now, k);
            &&& granted <= available_count(ts, ticket_type_id, hold_id, now)
            &&& available_count(after, ticket_type_id, hold_id, now) == available_count(
                ts,
                ticket_type_id,
                hold_id,
                now,
            ) - granted
        }),
    decreases requests.len() - k,
{
    if k < requests.len() {
        let request = requests[k];
        let (next, got) = serve(ts, request, ticket_type_id, hold_id, now);
        if spec_reserve_tickets(
            ts,
            request.order_item_id,
            request.expires_at,
            ticket_type_id,
            hold_id,
            request.quantity,
            now,
        ) is Ok {
            lemma_reserve_takes(
                ts,
                request.order_item_id,
                request.expires_at,
                ticket_type_id,
                hold_id,
                request.quantity as nat,
                now,
                ts.len() as int,
            );
        }
        lemma_no_oversell_from(next, requests, ticket_type_id, hold_id, now, k + 1);
    }
}

/// The tickets after all the requests were served in turn, and how many
/// tickets they got together.
pub open spec fn serve_all(
    ts: Seq<TicketInstance>,
    requests: Seq<ReserveRequest>,
    ticket_type_id: Id,
    hold_id: Option<Id>,
    now: Timestamp,
) -> (Seq<TicketInstance>, nat) {
    serve_from(ts, requests, ticket_type_id, hold_id, now, 0)
}

/// No oversell. However many requests compete for the free tickets of a
/// ticket type and hold, and in whatever order the ledger serves them, the
/// requests that succeed get no more tickets together than were free, and
/// the pool shrinks by exactly what they got. The requests must not ask for
/// reservations that have run out before they are made.
pub proof fn lemma_no_oversell(
    ts: Seq<TicketInstance>,
    requests: Seq<ReserveRequest>,
    ticket_type_id: Id,
    hold_id: Option<Id>,
    now: Timestamp,
)
    requires
        forall|i: int|
            0 <= i < requests.len() ==> (#[trigger] requests[i]).expires_at is None
                || requests[i].expires_at->0 >= now,
    ensures
        ({
            let (after, granted) = serve_all(ts, requests, ticket_type_id, hold_id, now);
            &&& granted <= available_count(ts, ticket_type_id, hold_id, now)
            &&& available_count(after, ticket_type_id, hold_id, now) == available_count(
                ts,
                ticket_type_id,
                hold_id,
                now,
            ) - granted
        }),
{
    lemma_no_oversell_from(ts, requests, ticket_type_id, hold_id, now, 0);
}

/// A request is refused, out of stock, exactly where it asks for more
/// tickets than are free; a refused request changes nothing.
pub proof fn lemma_out_of_stock(
    ts: Seq<TicketInstance>,
    order_item_id: Id,
    expires_at: Option<Timestamp>,
    ticket_type_id: Id,
    hold_id: Option<Id>,
    quantity: u32,
    now: Timestamp,
)
    ensures
        spec_reserve_tickets(ts, order_item_id, expires_at, ticket_type_id, hold_id, quantity, now)
            is Err <==> quantity > available_count(ts, ticket_type_id, hold_id, now),
        spec_reserve_tickets(ts, order_item_id, expires_at, ticket_type_id, hold_id, quantity, now)
            is Err ==> spec_reserve_tickets(
            ts,
            order_item_id,
            expires_at,
            ticket_type_id,
            hold_id,
            quantity,
            now,
        ) == Err::<Seq<TicketInstance>, crate::errors::DatabaseError>(
            crate::errors::DatabaseError::OutOfStock { ticket_type_id, hold_id, requested: quantity },
        ),
{
}

/// Two tables hold the same tickets, and the same of them are bought.
pub open spec fn kept_tickets(a: Seq<TicketInstance>, b: Seq<TicketInstance>) -> bool {
    &&& same_tickets(a, b)
    &&& forall|i: int|
        0 <= i < a.len() ==> ((#[trigger] a[i]).status == TicketInstanceStatus::Purchased) == (
        b[i].status == TicketInstanceStatus::Purchased)
}

/// What is kept over two steps is kept over both.
pub proof fn lemma_kept_tickets_trans(
    a: Seq<TicketInstance>,
    b: Seq<TicketInstance>,
    c: Seq<TicketInstance>,
)
    requires
        kept_tickets(a, b),
        kept_tickets(b, c),
    ensures
        kept_tickets(a, c),
{
    assert forall|i: int| 0 <= i < a.len() implies {
        &&& (#[trigger] a[i]).id == c[i].id
        &&& a[i].ticket_type_id == c[i].ticket_type_id
        &&& a[i].hold_id == c[i].hold_id
        &&& (a[i].status == TicketInstanceStatus::Redeemed) == (c[i].status
            == TicketInstanceStatus::Redeemed)
        &&& (a[i].status == TicketInstanceStatus::Nullified) == (c[i].status
            == TicketInstanceStatus::Nullified)
        &&& (a[i].status == TicketInstanceStatus::Purchased) == (c[i].status
            == TicketInstanceStatus::Purchased)
    } by {
        assert(b[i].id == a[i].id);
    }
}

proof fn lemma_kept_counts_before(
    a: Seq<TicketInstance>,
    b: Seq<TicketInstance>,
    ticket_type_id: Id,
    now: Timestamp,
    k: int,
)
    requires
        kept_tickets(a, b),
        0 <= k <= a.len(),
    ensures
        standing_count_before(a, ticket_type_id, Standing::Bought, now, k)
            == standing_count_before(b, ticket_type_id, Standing::Bought, now, k),
    decreases k,
{
    if k > 0 {
        lemma_kept_counts_before(a, b, ticket_type_id, now, k - 1);
        assert(a[k - 1].id == b[k - 1].id);
    }
}

/// Tables that keep the tickets hold as many tickets of each type, as many
/// bought, used and void ones, and so as many that are free or held; and in
/// each of them the five counts add up to the number of tickets of the type.
pub proof fn lemma_kept_tickets_counts(
    a: Seq<TicketInstance>,
    b: Seq<TicketInstance>,
    ticket_type_id: Id,
    now: Timestamp,
)
    requires
        kept_tickets(a, b),
    ensures
        type_count(b, ticket_type_id) == type_count(a, ticket_type_id),
        standing_count(b, ticket_type_id, Standing::Bought, now) == standing_count(
            a,
            ticket_type_id,
            Standing::Bought,
            now,
        ),
        standing_count(b, ticket_type_id, Standing::Used, now) == standing_count(
            a,
            ticket_type_id,
            Standing::Used,
            now,
        ),
        standing_count(b, ticket_type_id, Standing::Void, now) == standing_count(
            a,
            ticket_type_id,
            Standing::Void,
            now,
        ),
        standing_count(b, ticket_type_id, Standing::Free, now) + standing_count(
            b,
            ticket_type_id,
            Standing::Held,
            now,
        ) + standing_count(b, ticket_type_id, Standing::Bought, now) + standing_count(
            b,
            ticket_type_id,
            Standing::Used,
            now,
        ) + standing_count(b, ticket_type_id, Standing::Void, now) == type_count(a, ticket_type_id),
        standing_count(b, ticket_type_id, Standing::Held, now) + standing_count(
            b,
            ticket_type_id,
            Standing::Bought,
            now,
        ) <= type_count(a, ticket_type_id),
{
    lemma_same_tickets_counts(a, b, ticket_type_id, now, a.len() as int);
    lemma_kept_counts_before(a, b, ticket_type_id, now, a.len() as int);
    lemma_standings_partition(b, ticket_type_id, now, b.len() as int);
}

/// A reservation and a release keep the tickets.
pub proof fn lemma_claims_keep_tickets(
    ts: Seq<TicketInstance>,
    order_item_id: Id,
    expires_at: Option<Timestamp>,
    ticket_type_id: Id,
    hold_id: Option<Id>,
    quantity: nat,
    now: Timestamp,
)
    ensures
        kept_tickets(
            ts,
            reserve_rows(ts, order_item_id, expires_at, ticket_type_id, hold_id, quantity, now),
        ),
        kept_tickets(ts, crate::inventory::release_rows(ts, order_item_id, quantity)),
{
}

} // verus!
