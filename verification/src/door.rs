//! The door: a bought ticket is redeemed once, against its key.

use vstd::prelude::*;
use crate::domain_events::spec_record_event;
use crate::errors::DatabaseError;
use crate::model::{DomainEvent, EventData, RedeemKey, TicketInstance};
use crate::store::{find_index, index_of, Catalog, CatalogState, Store, StoreState};
use crate::types::{
    DomainEventTypes, Id, RedeemResults, Tables, TicketInstanceStatus, Timestamp,
};

verus! {

/// The index of the first key row at or after `from` for the ticket.
pub open spec fn key_row_from(keys: Seq<RedeemKey>, ticket_instance_id: Id, from: int) -> Option<int>
    decreases keys.len() - from,
{
    if from < 0 || from >= keys.len() {
        None
    } else if keys[from].ticket_instance_id == ticket_instance_id {
        Some(from)
    } else {
        key_row_from(keys, ticket_instance_id, from + 1)
    }
}

/// Whether `key` is the key of the ticket.
pub open spec fn key_matches(c: CatalogState, ticket_instance_id: Id, key: Seq<char>) -> bool {
    key_row_from(c.redeem_keys, ticket_instance_id, 0) is Some && c.redeem_keys[key_row_from(
        c.redeem_keys,
        ticket_instance_id,
        0,
    )->0].redeem_key@ == key
}

/// A redemption: a bought ticket whose key is presented becomes used and the
/// log tells of it; a used ticket is reported as used already; anything else
/// is reported as invalid. Only a ticket that does not exist is an error.
pub open spec fn spec_redeem_ticket(
    c: CatalogState,
    s: StoreState,
    ticket_instance_id: Id,
    key: Seq<char>,
    user_id: Id,
    now: Timestamp,
) -> Result<(StoreState, RedeemResults), DatabaseError> {
    match index_of(s.ticket_instances, ticket_instance_id) {
        None => Err(
            DatabaseError::NotFound { table: Tables::TicketInstances, id: ticket_instance_id },
        ),
        Some(i) => {
            let t = s.ticket_instances[i];
            if t.status == TicketInstanceStatus::Purchased && key_matches(
                c,
                ticket_instance_id,
                key,
            ) {
                match spec_record_event(
                    StoreState {
                        ticket_instances: s.ticket_instances.update(
                            i,
                            TicketInstance { status: TicketInstanceStatus::Redeemed, ..t },
                        ),
                        ..s
                    },
                    DomainEventTypes::TicketInstanceRedeemed,
                    Tables::TicketInstances,
                    Some(ticket_instance_id),
                    Some(user_id),
                    EventData::TicketRedeemed,
                    now,
                ) {
                    Err(e) => Err(e),
                    Ok((s1, _)) => Ok((s1, RedeemResults::TicketRedeemSuccess)),
                }
            } else if t.status == TicketInstanceStatus::Redeemed {
                Ok((s, RedeemResults::TicketAlreadyRedeemed))
            } else {
                Ok((s, RedeemResults::TicketInvalid))
            }
        },
    }
}

fn has_key(catalog: &Catalog, ticket_instance_id: Id, key: &String) -> (yes: bool)
    ensures
        yes == key_matches(catalog@, ticket_instance_id, key@),
{
    let mut k: usize = 0;
    while k < catalog.redeem_keys.len()
        invariant
            k <= catalog.redeem_keys.len(),
            key_row_from(catalog@.redeem_keys, ticket_instance_id, k as int) == key_row_from(
                catalog@.redeem_keys,
                ticket_instance_id,
                0,
            ),
        decreases catalog.redeem_keys.len() - k,
    {
        if catalog.redeem_keys[k].ticket_instance_id == ticket_instance_id {
            return catalog.redeem_keys[k].redeem_key == *key;
        }
        k += 1;
    }
    false
}

impl TicketInstance {
    /// Redeems the ticket `ticket_instance_id` against `redeem_key`. A ticket
    /// that is used already, or not bought, or whose key is another, is
    /// reported, not failed. Where it fails, nothing changes.
    pub fn redeem_ticket(
        ticket_instance_id: Id,
        redeem_key: &String,
        user_id: Id,
        catalog: &Catalog,
        store: &mut Store,
        now: Timestamp,
    ) -> (res: Result<RedeemResults, DatabaseError>)
        ensures
            match spec_redeem_ticket(
                catalog@,
                old(store)@,
                ticket_instance_id,
                redeem_key@,
                user_id,
                now,
            ) {
                Ok((s, outcome)) => res == Ok::<RedeemResults, DatabaseError>(outcome)
                    && final(store)@ == s,
                Err(e) => res == Err::<RedeemResults, DatabaseError>(e)
                    && final(store)@ == old(store)@,
            },
    {
        let i = match find_index(&store.ticket_instances, ticket_instance_id) {
            Some(i) => i,
            None => {
                return Err(
                    DatabaseError::NotFound {
                        table: Tables::TicketInstances,
                        id: ticket_instance_id,
                    },
                );
            },
        };
        let status = store.ticket_instances[i].status;
        if status == TicketInstanceStatus::Purchased && has_key(
            catalog,
            ticket_instance_id,
            redeem_key,
        ) {
            DomainEvent::create(
                DomainEventTypes::TicketInstanceRedeemed,
                Tables::TicketInstances,
                Some(ticket_instance_id),
                Some(user_id),
                EventData::TicketRedeemed,
                store,
                now,
            )?;
            store.ticket_instances[i].status = TicketInstanceStatus::Redeemed;
            assert(store@.ticket_instances =~= old(store)@.ticket_instances.update(
                i as int,
                TicketInstance {
                    status: TicketInstanceStatus::Redeemed,
                    ..old(store)@.ticket_instances[i as int]
                },
            ));
            Ok(RedeemResults::TicketRedeemSuccess)
        } else if status == TicketInstanceStatus::Redeemed {
            Ok(RedeemResults::TicketAlreadyRedeemed)
        } else {
            Ok(RedeemResults::TicketInvalid)
        }
    }
}

} // verus!
