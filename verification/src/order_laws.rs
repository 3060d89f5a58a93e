//! What holds of the changes to an order whatever the store holds: of two
//! writers that read the same version one wins, and a refused change leaves
//! no trace.

use vstd::prelude::*;
use crate::errors::DatabaseError;
use crate::model::Order;
use crate::checkout::{
    spec_set_behalf_of_user, spec_set_external_payment_type, spec_set_user_agent,
};
use crate::orders::{
    expiry_writable, spec_lock_version, spec_remove_expiry, spec_set_expiry, version_current,
};
use crate::types::ExternalPaymentType;
use crate::store::{index_from, index_of, Keyed, StoreState};
use crate::types::{Id, Timestamp};

verus! {

/// A table in which one row was rewritten, under the same identifier, finds
/// every identifier where it found it before.
pub proof fn lemma_index_after_update<T: Keyed>(rows: Seq<T>, at: int, row: T, id: Id, from: int)
    requires
        0 <= at < rows.len(),
        row.key() == rows[at].key(),
        0 <= from,
    ensures
        index_from(rows.update(at, row), id, from) == index_from(rows, id, from),
    decreases rows.len() - from,
{
    if from < rows.len() {
        if rows.update(at, row)[from].key() != id {
            lemma_index_after_update(rows, at, row, id, from + 1);
        }
    }
}

/// Optimistic lock. Of two writers that read an order at the same version,
/// the one that locks first wins; the other is refused with a concurrency
/// error, whenever it comes, and must read the order again.
pub proof fn lemma_lock_excludes(
    s: StoreState,
    first: Order,
    second: Order,
    now_first: Timestamp,
    now_second: Timestamp,
)
    requires
        first.id == second.id,
        first.version == second.version,
        spec_lock_version(s, first, now_first) is Ok,
    ensures
        spec_lock_version(spec_lock_version(s, first, now_first)->Ok_0.0, second, now_second) == Err::<
            (StoreState, Order),
            DatabaseError,
        >(DatabaseError::OrderVersionMismatch),
        !version_current(spec_lock_version(s, first, now_first)->Ok_0.0, second),
{
    let i = index_of(s.orders, first.id)->0;
    crate::store::lemma_index_of(s.orders, first.id);
    let row = Order { version: (first.version + 1) as i64, updated_at: now_first, ..s.orders[i] };
    lemma_index_after_update(s.orders, i, row, first.id, 0);
}

/// A writer whose version is behind that of the row can neither lock the
/// order nor write its expiry.
pub proof fn lemma_stale_version_refused(
    s: StoreState,
    order: Order,
    current_user_id: Id,
    expires_at: Option<Timestamp>,
    now: Timestamp,
)
    requires
        !version_current(s, order),
    ensures
        spec_lock_version(s, order, now) is Err,
        spec_set_expiry(s, order, Some(current_user_id), expires_at, now) is Err,
        spec_remove_expiry(s, order, current_user_id, now) is Err,
        !expiry_writable(s, order, now),
{
}

/// What checkout records under the lock makes the version that it was based
/// on stale: whoever still holds that version is refused when he locks.
pub proof fn lemma_checkout_locks(
    s: StoreState,
    order: Order,
    user_agent: Option<String>,
    purchase_completed: bool,
    user_id: Id,
    external_payment_type: ExternalPaymentType,
    current_user_id: Id,
    now: Timestamp,
)
    ensures
        spec_set_user_agent(s, order, user_agent, purchase_completed, now) is Ok
            ==> !version_current(
            spec_set_user_agent(s, order, user_agent, purchase_completed, now)->Ok_0.0,
            order,
        ),
        spec_set_behalf_of_user(s, order, user_id, current_user_id, now) is Ok ==> !version_current(
            spec_set_behalf_of_user(s, order, user_id, current_user_id, now)->Ok_0.0,
            order,
        ),
        spec_set_external_payment_type(s, order, external_payment_type, current_user_id, now) is Ok
            ==> !version_current(
            spec_set_external_payment_type(
                s,
                order,
                external_payment_type,
                current_user_id,
                now,
            )->Ok_0.0,
            order,
        ),
{
    if spec_lock_version(s, order, now) is Ok {
        let (s1, o1) = spec_lock_version(s, order, now)->Ok_0;
        let i = index_of(s.orders, order.id)->0;
        crate::store::lemma_index_of(s.orders, order.id);
        let locked = Order { version: (order.version + 1) as i64, updated_at: now, ..s.orders[i] };
        lemma_index_after_update(s.orders, i, locked, order.id, 0);
        assert(index_of(s1.orders, order.id) == Some(i));
        let agent = if purchase_completed {
            Order { purchase_user_agent: user_agent, updated_at: now, ..o1 }
        } else {
            Order { create_user_agent: user_agent, updated_at: now, ..o1 }
        };
        let a = Order {
            purchase_user_agent: agent.purchase_user_agent,
            create_user_agent: agent.create_user_agent,
            updated_at: now,
            ..s1.orders[i]
        };
        lemma_index_after_update(s1.orders, i, a, order.id, 0);
        let b = Order { on_behalf_of_user_id: Some(user_id), updated_at: now, ..s1.orders[i] };
        lemma_index_after_update(s1.orders, i, b, order.id, 0);
        let c = Order {
            external_payment_type: Some(external_payment_type),
            updated_at: now,
            ..s1.orders[i]
        };
        lemma_index_after_update(s1.orders, i, c, order.id, 0);
    }
}

} // verus!
