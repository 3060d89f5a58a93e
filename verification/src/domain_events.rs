//! The audit log: what happened to which row, on whose request.

use vstd::prelude::*;
use crate::errors::DatabaseError;
use crate::model::{DomainAction, DomainEvent, EventData};
use crate::store::{take_id, Store, StoreState};
use crate::types::{
    fits_i64, DomainActionStatus, DomainActionTypes, DomainEventTypes, Id, Tables, Timestamp,
    MICROS_PER_DAY,
};

verus! {

/// The state after one entry was added to the log, and the entry.
pub open spec fn spec_record_event(
    s: StoreState,
    event_type: DomainEventTypes,
    main_table: Tables,
    main_id: Option<Id>,
    user_id: Option<Id>,
    event_data: EventData,
    now: Timestamp,
) -> Result<(StoreState, DomainEvent), DatabaseError> {
    match take_id(s) {
        None => Err(DatabaseError::IdentifiersExhausted),
        Some((s1, id)) => {
            let event = DomainEvent {
                id,
                event_type,
                main_table,
                main_id,
                user_id,
                event_data,
                created_at: now,
            };
            Ok((StoreState { domain_events: s1.domain_events.push(event), ..s1 }, event))
        },
    }
}

/// The state after work was scheduled at `now`, to be dropped `days` days later.
pub open spec fn spec_schedule_action(
    s: StoreState,
    domain_event_id: Option<Id>,
    domain_action_type: DomainActionTypes,
    main_table: Tables,
    main_table_id: Id,
    user_id: Option<Id>,
    days: i64,
    now: Timestamp,
) -> Result<StoreState, DatabaseError> {
    if !fits_i64(days * MICROS_PER_DAY) || !fits_i64(now + days * MICROS_PER_DAY) {
        Err(DatabaseError::ArithmeticOverflow)
    } else {
        match take_id(s) {
            None => Err(DatabaseError::IdentifiersExhausted),
            Some((s1, id)) => Ok(
                StoreState {
                    domain_actions: s1.domain_actions.push(
                        DomainAction {
                            id,
                            domain_event_id,
                            domain_action_type,
                            main_table,
                            main_table_id,
                            user_id,
                            scheduled_at: now,
                            expires_at: (now + days * MICROS_PER_DAY) as i64,
                            status: DomainActionStatus::Pending,
                        },
                    ),
                    ..s1
                },
            ),
        }
    }
}

impl DomainEvent {
    /// Adds one entry to the log. Fails, and changes nothing, only where no
    /// identifier is left.
    pub fn create(
        event_type: DomainEventTypes,
        main_table: Tables,
        main_id: Option<Id>,
        user_id: Option<Id>,
        event_data: EventData,
        store: &mut Store,
        now: Timestamp,
    ) -> (res: Result<DomainEvent, DatabaseError>)
        ensures
            match spec_record_event(
                old(store)@,
                event_type,
                main_table,
                main_id,
                user_id,
                event_data,
                now,
            ) {
                Ok((s, event)) => res == Ok::<DomainEvent, DatabaseError>(event) && final(store)@
                    == s,
                Err(e) => res == Err::<DomainEvent, DatabaseError>(e) && final(store)@ == old(
                    store,
                )@,
            },
    {
        let id = store.allocate_id()?;
        let event = DomainEvent {
            id,
            event_type,
            main_table,
            main_id,
            user_id,
            event_data,
            created_at: now,
        };
        store.domain_events.push(event);
        Ok(event)
    }
}

impl DomainAction {
    /// Schedules work at `now` that is dropped if nobody did it `days` days
    /// later. Fails, and changes nothing, where that moment cannot be written
    /// or no identifier is left.
    pub fn create(
        domain_event_id: Option<Id>,
        domain_action_type: DomainActionTypes,
        main_table: Tables,
        main_table_id: Id,
        user_id: Option<Id>,
        days: i64,
        store: &mut Store,
        now: Timestamp,
    ) -> (res: Result<(), DatabaseError>)
        ensures
            match spec_schedule_action(
                old(store)@,
                domain_event_id,
                domain_action_type,
                main_table,
                main_table_id,
                user_id,
                days,
                now,
            ) {
                Ok(s) => res is Ok && final(store)@ == s,
                Err(e) => res == Err::<(), DatabaseError>(e) && final(store)@ == old(store)@,
            },
    {
        let span = match days.checked_mul(MICROS_PER_DAY) {
            Some(span) => span,
            None => {
                return Err(DatabaseError::ArithmeticOverflow);
            },
        };
        let expires_at = match now.checked_add(span) {
            Some(t) => t,
            None => {
                return Err(DatabaseError::ArithmeticOverflow);
            },
        };
        let id = store.allocate_id()?;
        store.domain_actions.push(
            DomainAction {
                id,
                domain_event_id,
                domain_action_type,
                main_table,
                main_table_id,
                user_id,
                scheduled_at: now,
                expires_at,
                status: DomainActionStatus::Pending,
            },
        );
        Ok(())
    }
}

} // verus!
