//! Holds and codes: how a redemption code is resolved, and when it is valid.

use vstd::prelude::*;
use crate::errors::DatabaseError;
use crate::model::{Code, Hold, OrderItem};
use crate::store::{find_index, index_of, Catalog, CatalogState, Store, StoreState};
use crate::types::{fits_i64, CodeTypes, HoldTypes, Id, OrderStatus, Timestamp};

verus! {

/// What a redemption code stands for, with the fields that pricing and the
/// limits read.
#[derive(Clone, Copy, PartialEq, Eq, Debug, Structural)]
pub enum Redemption {
    /// No code was given.
    Nothing,
    Hold { id: Id, hold_type: HoldTypes, discount_in_cents: Option<i64>, max_per_user: Option<i64> },
    Code { id: Id, code_type: CodeTypes, discount_in_cents: Option<i64> },
}

impl Redemption {
    /// The hold that the code stands for.
    pub open spec fn spec_hold_id(self) -> Option<Id> {
        match self {
            Redemption::Hold { id, .. } => Some(id),
            _ => None,
        }
    }

    /// The hold that the code stands for.
    #[verifier::when_used_as_spec(spec_hold_id)]
    pub fn hold_id(self) -> (id: Option<Id>)
        ensures
            id == self.spec_hold_id(),
    {
        match self {
            Redemption::Hold { id, .. } => Some(id),
            _ => None,
        }
    }

    /// The discount or access code that the code stands for.
    pub open spec fn spec_code_id(self) -> Option<Id> {
        match self {
            Redemption::Code { id, .. } => Some(id),
            _ => None,
        }
    }

    /// The discount or access code that the code stands for.
    #[verifier::when_used_as_spec(spec_code_id)]
    pub fn code_id(self) -> (id: Option<Id>)
        ensures
            id == self.spec_code_id(),
    {
        match self {
            Redemption::Code { id, .. } => Some(id),
            _ => None,
        }
    }

    /// The most that one person may hold under the code; `None` where the
    /// code is no hold and the limit of the ticket type applies.
    pub open spec fn spec_limit_per_person(self) -> Option<i64> {
        match self {
            Redemption::Hold { max_per_user, .. } => Some(
                match max_per_user {
                    Some(limit) => limit,
                    None => 0,
                },
            ),
            _ => None,
        }
    }

    /// The most that one person may hold under the code; `None` where the
    /// code is no hold and the limit of the ticket type applies.
    #[verifier::when_used_as_spec(spec_limit_per_person)]
    pub fn limit_per_person(self) -> (limit: Option<i64>)
        ensures
            limit == self.spec_limit_per_person(),
    {
        match self {
            Redemption::Hold { max_per_user, .. } => Some(
                match max_per_user {
                    Some(limit) => limit,
                    None => 0,
                },
            ),
            _ => None,
        }
    }
}

/// The upper-case form of a text.
pub uninterp spec fn uppercase(text: Seq<char>) -> Seq<char>;

/// `str::to_uppercase` of std: the result is the upper-case form of the
/// argument, a function of the argument alone.
#[verifier::external_body]
fn to_uppercase(text: &String) -> (upper: String)
    ensures
        upper@ == uppercase(text@),
{
    text.to_uppercase()
}

/// The index of the first hold at or after `from` with the redemption code `code`.
pub open spec fn hold_with_code_from(holds: Seq<Hold>, code: Seq<char>, from: int) -> Option<int>
    decreases holds.len() - from,
{
    if from < 0 || from >= holds.len() {
        None
    } else if holds[from].redemption_code@ == code {
        Some(from)
    } else {
        hold_with_code_from(holds, code, from + 1)
    }
}

/// The index of the first code at or after `from` with the redemption code `code`.
pub open spec fn code_with_code_from(codes: Seq<Code>, code: Seq<char>, from: int) -> Option<int>
    decreases codes.len() - from,
{
    if from < 0 || from >= codes.len() {
        None
    } else if codes[from].redemption_code@ == code {
        Some(from)
    } else {
        code_with_code_from(codes, code, from + 1)
    }
}

/// Whether the hold may be used at `now`: it has no end, or has not ended.
pub open spec fn hold_valid(hold: Hold, now: Timestamp) -> bool {
    hold.end_at is None || now <= hold.end_at->0
}

/// Whether the code may be used at `now`: `now` lies in its window.
pub open spec fn code_valid(code: Code, now: Timestamp) -> bool {
    code.start_date <= now <= code.end_date
}

/// Whether a code of the type gives its discount in one way: for a
/// discount code exactly one of cents and percentage, with the error that
/// tells which of the two faults it is; any other code is in order.
pub open spec fn spec_single_discount(
    code_type: CodeTypes,
    discount_in_cents: Option<i64>,
    discount_as_percentage: Option<i64>,
) -> Result<(), DatabaseError> {
    if code_type != CodeTypes::Discount {
        Ok(())
    } else if discount_in_cents is None && discount_as_percentage is None {
        Err(DatabaseError::DiscountRequired)
    } else if discount_in_cents is Some && discount_as_percentage is Some {
        Err(DatabaseError::OnlySingleDiscountTypeAllowed)
    } else {
        Ok(())
    }
}

/// What the redemption code `code`, already in upper case, stands for at
/// `now`. A hold is looked for first, then a code; what is found must be
/// valid.
pub open spec fn spec_resolve_upper(c: CatalogState, code: Seq<char>, now: Timestamp) -> Result<
    Redemption,
    DatabaseError,
> {
    match hold_with_code_from(c.holds, code, 0) {
        Some(i) => {
            let hold = c.holds[i];
            if hold_valid(hold, now) {
                Ok(
                    Redemption::Hold {
                        id: hold.id,
                        hold_type: hold.hold_type,
                        discount_in_cents: hold.discount_in_cents,
                        max_per_user: hold.max_per_user,
                    },
                )
            } else {
                Err(DatabaseError::HoldNotValid { id: hold.id, end_at: hold.end_at->0 })
            }
        },
        None => match code_with_code_from(c.codes, code, 0) {
            Some(i) => {
                let found = c.codes[i];
                if code_valid(found, now) {
                    Ok(
                        Redemption::Code {
                            id: found.id,
                            code_type: found.code_type,
                            discount_in_cents: found.discount_in_cents,
                        },
                    )
                } else {
                    Err(
                        DatabaseError::CodeNotValid {
                            code_id: found.id,
                            start_date: found.start_date,
                            end_date: found.end_date,
                        },
                    )
                }
            },
            None => Err(DatabaseError::RedemptionCodeInvalid),
        },
    }
}

/// What an optional redemption code stands for at `now`. Codes are compared
/// in upper case.
pub open spec fn spec_resolve(c: CatalogState, code: Option<String>, now: Timestamp) -> Result<
    Redemption,
    DatabaseError,
> {
    match code {
        None => Ok(Redemption::Nothing),
        Some(text) => spec_resolve_upper(c, uppercase(text@), now),
    }
}

impl Hold {
    /// Fails where the hold ended before `now`.
    pub fn confirm_hold_valid(&self, now: Timestamp) -> (res: Result<(), DatabaseError>)
        ensures
            res is Ok <==> hold_valid(*self, now),
            res is Err ==> res == Err::<(), DatabaseError>(
                DatabaseError::HoldNotValid { id: self.id, end_at: self.end_at->0 },
            ),
    {
        match self.end_at {
            Some(end_at) => {
                if now > end_at {
                    return Err(DatabaseError::HoldNotValid { id: self.id, end_at });
                }
                Ok(())
            },
            None => Ok(()),
        }
    }

    /// The position of the first hold with the redemption code `code`.
    pub fn find_by_redemption_code(code: &String, catalog: &Catalog) -> (found: Option<usize>)
        ensures
            match found {
                Some(i) => hold_with_code_from(catalog@.holds, code@, 0) == Some(i as int) && i
                    < catalog@.holds.len(),
                None => hold_with_code_from(catalog@.holds, code@, 0) is None,
            },
    {
        let mut k: usize = 0;
        while k < catalog.holds.len()
            invariant
                k <= catalog.holds.len(),
                hold_with_code_from(catalog@.holds, code@, k as int) == hold_with_code_from(
                    catalog@.holds,
                    code@,
                    0,
                ),
            decreases catalog.holds.len() - k,
        {
            if catalog.holds[k].redemption_code == *code {
                return Some(k);
            }
            k += 1;
        }
        None
    }
}

impl Code {
    /// Fails where `now` lies outside the window of the code.
    pub fn confirm_code_valid(&self, now: Timestamp) -> (res: Result<(), DatabaseError>)
        ensures
            res is Ok <==> code_valid(*self, now),
            res is Err ==> res == Err::<(), DatabaseError>(
                DatabaseError::CodeNotValid {
                    code_id: self.id,
                    start_date: self.start_date,
                    end_date: self.end_date,
                },
            ),
    {
        if now < self.start_date || now > self.end_date {
            return Err(
                DatabaseError::CodeNotValid {
                    code_id: self.id,
                    start_date: self.start_date,
                    end_date: self.end_date,
                },
            );
        }
        Ok(())
    }

    /// The position of the first code with the redemption code `code`.
    pub fn find_by_redemption_code(code: &String, catalog: &Catalog) -> (found: Option<usize>)
        ensures
            match found {
                Some(i) => code_with_code_from(catalog@.codes, code@, 0) == Some(i as int) && i
                    < catalog@.codes.len(),
                None => code_with_code_from(catalog@.codes, code@, 0) is None,
            },
    {
        let mut k: usize = 0;
        while k < catalog.codes.len()
            invariant
                k <= catalog.codes.len(),
                code_with_code_from(catalog@.codes, code@, k as int) == code_with_code_from(
                    catalog@.codes,
                    code@,
                    0,
                ),
            decreases catalog.codes.len() - k,
        {
            if catalog.codes[k].redemption_code == *code {
                return Some(k);
            }
            k += 1;
        }
        None
    }

    /// For a discount code, one way to discount must be given, and only
    /// one: fails with `DiscountRequired` where neither cents nor a
    /// percentage is given, and with `OnlySingleDiscountTypeAllowed` where
    /// both are. Any other code is in order.
    pub fn single_discount_present_for_discount_type(
        code_type: CodeTypes,
        discount_in_cents: Option<i64>,
        discount_as_percentage: Option<i64>,
    ) -> (res: Result<(), DatabaseError>)
        ensures
            res == spec_single_discount(code_type, discount_in_cents, discount_as_percentage),
    {
        match code_type {
            CodeTypes::Access => Ok(()),
            CodeTypes::Discount => {
                if discount_in_cents.is_none() && discount_as_percentage.is_none() {
                    Err(DatabaseError::DiscountRequired)
                } else if discount_in_cents.is_some() && discount_as_percentage.is_some() {
                    Err(DatabaseError::OnlySingleDiscountTypeAllowed)
                } else {
                    Ok(())
                }
            },
        }
    }
}

/// Resolves a redemption code that is already in upper case.
pub fn resolve_upper(catalog: &Catalog, code: &String, now: Timestamp) -> (res: Result<
    Redemption,
    DatabaseError,
>)
    ensures
        res == spec_resolve_upper(catalog@, code@, now),
{
    match Hold::find_by_redemption_code(code, catalog) {
        Some(i) => {
            let hold = &catalog.holds[i];
            match hold.confirm_hold_valid(now) {
                Err(e) => Err(e),
                Ok(()) => Ok(
                    Redemption::Hold {
                        id: hold.id,
                        hold_type: hold.hold_type,
                        discount_in_cents: hold.discount_in_cents,
                        max_per_user: hold.max_per_user,
                    },
                ),
            }
        },
        None => match Code::find_by_redemption_code(code, catalog) {
            Some(i) => {
                let found = &catalog.codes[i];
                match found.confirm_code_valid(now) {
                    Err(e) => Err(e),
                    Ok(()) => Ok(
                        Redemption::Code {
                            id: found.id,
                            code_type: found.code_type,
                            discount_in_cents: found.discount_in_cents,
                        },
                    ),
                }
            },
            None => Err(DatabaseError::RedemptionCodeInvalid),
        },
    }
}

/// Resolves an optional redemption code: to nothing where none is given,
/// else to the first hold that carries it in upper case, else to the first
/// code that does. Fails where nothing carries it, or what carries it is not
/// valid at `now`.
pub fn resolve(catalog: &Catalog, code: &Option<String>, now: Timestamp) -> (res: Result<
    Redemption,
    DatabaseError,
>)
    ensures
        res == spec_resolve(catalog@, *code, now),
{
    match code {
        None => Ok(Redemption::Nothing),
        Some(text) => {
            let upper = to_uppercase(text);
            resolve_upper(catalog, &upper, now)
        },
    }
}

/// A code with the number of uses that it has left.
#[derive(Debug, PartialEq, Eq)]
pub struct CodeAvailability {
    pub code: Code,
    pub available: i64,
}

/// Whether a line counts as a use of the code: it was bought under the
/// code, nothing of it was refunded, it belongs to another order than
/// `excluded`, and its order is paid or runs out after `now`.
pub open spec fn counts_as_use(
    s: StoreState,
    item: OrderItem,
    code_id: Id,
    excluded: Id,
    now: Timestamp,
) -> bool {
    &&& item.order_id != excluded
    &&& item.code_id == Some(code_id)
    &&& item.refunded_quantity == 0
    &&& index_of(s.orders, item.order_id) is Some
    &&& {
        let order = s.orders[index_of(s.orders, item.order_id)->0];
        (order.expires_at is Some && order.expires_at->0 > now) || order.status
            == OrderStatus::Paid
    }
}

/// `acc` and the quantities of the lines from the `k`th on that count as
/// uses of the code, added from left to right in 64 bits; `None` where a
/// step leaves that range.
pub open spec fn uses_from(
    s: StoreState,
    code_id: Id,
    excluded: Id,
    now: Timestamp,
    k: int,
    acc: int,
) -> Option<int>
    decreases s.order_items.len() - k,
{
    if k < 0 || k >= s.order_items.len() {
        Some(acc)
    } else if !counts_as_use(s, s.order_items[k], code_id, excluded, now) {
        uses_from(s, code_id, excluded, now, k + 1, acc)
    } else if fits_i64(acc + s.order_items[k].quantity) {
        uses_from(s, code_id, excluded, now, k + 1, acc + s.order_items[k].quantity)
    } else {
        None
    }
}

/// How often the code was used, outside the order `order_id_to_exclude`.
pub open spec fn spec_number_of_uses(
    s: StoreState,
    code_id: Id,
    order_id_to_exclude: Option<Id>,
    now: Timestamp,
) -> Result<i64, DatabaseError> {
    let excluded: Id = match order_id_to_exclude {
        Some(id) => id,
        None => 0,
    };
    match uses_from(s, code_id, excluded, now, 0, 0) {
        Some(n) => Ok(n as i64),
        None => Err(DatabaseError::ArithmeticOverflow),
    }
}

/// The index of the first code at or after `from` with the redemption code
/// `code`, of the event where one is given.
pub open spec fn event_code_from(codes: Seq<Code>, code: Seq<char>, event_id: Option<Id>, from: int) -> Option<
    int,
>
    decreases codes.len() - from,
{
    if from < 0 || from >= codes.len() {
        None
    } else if codes[from].redemption_code@ == code && (event_id is None || event_id == Some(
        codes[from].event_id,
    )) {
        Some(from)
    } else {
        event_code_from(codes, code, event_id, from + 1)
    }
}

/// The code with the redemption code `code`, already in upper case, and
/// what it has left: its uses less the uses made.
pub open spec fn spec_availability_upper(
    c: CatalogState,
    s: StoreState,
    code: Seq<char>,
    event_id: Option<Id>,
    now: Timestamp,
) -> Result<CodeAvailability, DatabaseError> {
    match event_code_from(c.codes, code, event_id, 0) {
        None => Err(DatabaseError::RedemptionCodeInvalid),
        Some(i) => match spec_number_of_uses(s, c.codes[i].id, None, now) {
            Err(e) => Err(e),
            Ok(used) => if fits_i64(c.codes[i].max_uses - used) {
                Ok(CodeAvailability { code: c.codes[i], available: (c.codes[i].max_uses - used) as i64 })
            } else {
                Err(DatabaseError::ArithmeticOverflow)
            },
        },
    }
}

fn is_use(store: &Store, k: usize, code_id: Id, excluded: Id, now: Timestamp) -> (yes: bool)
    requires
        k < store.order_items.len(),
    ensures
        yes == counts_as_use(store@, store@.order_items[k as int], code_id, excluded, now),
{
    let item = &store.order_items[k];
    let under_code = match item.code_id {
        Some(id) => id == code_id,
        None => false,
    };
    if item.order_id == excluded || !under_code || item.refunded_quantity != 0 {
        return false;
    }
    match find_index(&store.orders, item.order_id) {
        None => false,
        Some(o) => {
            let live = match store.orders[o].expires_at {
                Some(t) => t > now,
                None => false,
            };
            live || store.orders[o].status == OrderStatus::Paid
        },
    }
}

impl Code {
    /// How often the code was used: the quantities of the lines bought
    /// under it of which nothing was refunded, in orders that are paid or
    /// run out after `now`, but for the order `order_id_to_exclude`. Fails
    /// where the sum leaves 64 bits.
    pub fn find_number_of_uses(
        code_id: Id,
        order_id_to_exclude: Option<Id>,
        store: &Store,
        now: Timestamp,
    ) -> (res: Result<i64, DatabaseError>)
        ensures
            res == spec_number_of_uses(store@, code_id, order_id_to_exclude, now),
    {
        let excluded: Id = match order_id_to_exclude {
            Some(id) => id,
            None => 0,
        };
        let mut used: i64 = 0;
        let mut k: usize = 0;
        while k < store.order_items.len()
            invariant
                k <= store.order_items.len(),
                excluded == match order_id_to_exclude {
                    Some(id) => id,
                    None => 0,
                },
                uses_from(store@, code_id, excluded, now, k as int, used as int) == uses_from(
                    store@,
                    code_id,
                    excluded,
                    now,
                    0,
                    0,
                ),
            decreases store.order_items.len() - k,
        {
            if is_use(store, k, code_id, excluded, now) {
                used = match used.checked_add(store.order_items[k].quantity) {
                    Some(sum) => sum,
                    None => {
                        return Err(DatabaseError::ArithmeticOverflow);
                    },
                };
            }
            k += 1;
        }
        Ok(used)
    }

    /// The code with the redemption code `code`, which is in upper case, of
    /// the event where one is given, with the uses that it has left.
    pub fn find_by_upper_code_with_availability(
        code: &String,
        event_id: Option<Id>,
        catalog: &Catalog,
        store: &Store,
        now: Timestamp,
    ) -> (res: Result<CodeAvailability, DatabaseError>)
        ensures
            res == spec_availability_upper(catalog@, store@, code@, event_id, now),
    {
        let mut k: usize = 0;
        while k < catalog.codes.len()
            invariant
                k <= catalog.codes.len(),
                event_code_from(catalog@.codes, code@, event_id, k as int) == event_code_from(
                    catalog@.codes,
                    code@,
                    event_id,
                    0,
                ),
            decreases catalog.codes.len() - k,
        {
            let of_event = match event_id {
                Some(e) => catalog.codes[k].event_id == e,
                None => true,
            };
            if catalog.codes[k].redemption_code == *code && of_event {
                let used = Code::find_number_of_uses(catalog.codes[k].id, None, store, now)?;
                return match catalog.codes[k].max_uses.checked_sub(used) {
                    Some(available) => Ok(
                        CodeAvailability { code: catalog.codes[k].clone(), available },
                    ),
                    None => Err(DatabaseError::ArithmeticOverflow),
                };
            }
            k += 1;
        }
        Err(DatabaseError::RedemptionCodeInvalid)
    }

    /// The code with the redemption code `redemption_code`, compared in
    /// upper case, of the event where one is given, with the uses that it
    /// has left.
    pub fn find_by_redemption_code_with_availability(
        redemption_code: &String,
        event_id: Option<Id>,
        catalog: &Catalog,
        store: &Store,
        now: Timestamp,
    ) -> (res: Result<CodeAvailability, DatabaseError>)
        ensures
            res == spec_availability_upper(
                catalog@,
                store@,
                uppercase(redemption_code@),
                event_id,
                now,
            ),
    {
        let upper = to_uppercase(redemption_code);
        Code::find_by_upper_code_with_availability(&upper, event_id, catalog, store, now)
    }
}

} // verus!
