//! The pricing resolver: the price that applies to a ticket type now, what a
//! hold or code takes off it, and the per-ticket fee of a net price.

use vstd::prelude::*;
use crate::errors::DatabaseError;
use crate::model::{FeeScheduleRange, TicketPricing};
use crate::redemption::Redemption;
use crate::store::Catalog;
use crate::types::{fits_i64, CodeTypes, HoldTypes, Id, TicketPricingStatus, Timestamp};

verus! {

/// Whether the pricing period applies to `ticket_type_id` at `now`, at the
/// box office or online.
pub open spec fn pricing_current(
    p: TicketPricing,
    ticket_type_id: Id,
    box_office_only: bool,
    now: Timestamp,
) -> bool {
    &&& p.ticket_type_id == ticket_type_id
    &&& p.start_date <= now < p.end_date
    &&& p.status != TicketPricingStatus::Deleted
    &&& p.is_box_office_only == box_office_only
}

/// How many of the first `k` pricing periods apply.
pub open spec fn current_before(
    ps: Seq<TicketPricing>,
    ticket_type_id: Id,
    box_office_only: bool,
    now: Timestamp,
    k: int,
) -> nat
    decreases k,
{
    if k <= 0 {
        0
    } else {
        current_before(ps, ticket_type_id, box_office_only, now, k - 1) + if pricing_current(
            ps[k - 1],
            ticket_type_id,
            box_office_only,
            now,
        ) {
            1nat
        } else {
            0nat
        }
    }
}

/// The index of the first pricing period at or after `from` that applies.
pub open spec fn current_from(
    ps: Seq<TicketPricing>,
    ticket_type_id: Id,
    box_office_only: bool,
    now: Timestamp,
    from: int,
) -> Option<int>
    decreases ps.len() - from,
{
    if from < 0 || from >= ps.len() {
        None
    } else if pricing_current(ps[from], ticket_type_id, box_office_only, now) {
        Some(from)
    } else {
        current_from(ps, ticket_type_id, box_office_only, now, from + 1)
    }
}

/// The one pricing period of its kind that applies: an error where none or
/// more than one does.
pub open spec fn single_current(
    ps: Seq<TicketPricing>,
    ticket_type_id: Id,
    box_office_only: bool,
    now: Timestamp,
) -> Result<TicketPricing, DatabaseError> {
    let n = current_before(ps, ticket_type_id, box_office_only, now, ps.len() as int);
    if n == 0 {
        Err(DatabaseError::NoTicketPricing { ticket_type_id })
    } else if n > 1 {
        Err(DatabaseError::AmbiguousTicketPricing { ticket_type_id })
    } else {
        match current_from(ps, ticket_type_id, box_office_only, now, 0) {
            Some(i) => Ok(ps[i]),
            None => Err(DatabaseError::NoTicketPricing { ticket_type_id }),
        }
    }
}

/// The pricing period that applies to `ticket_type_id` at `now`. At the box
/// office the box office periods apply, and the online ones where there is
/// no box office period.
pub open spec fn spec_current_ticket_pricing(
    ps: Seq<TicketPricing>,
    ticket_type_id: Id,
    box_office_pricing: bool,
    now: Timestamp,
) -> Result<TicketPricing, DatabaseError> {
    if box_office_pricing && current_before(ps, ticket_type_id, true, now, ps.len() as int) > 0 {
        single_current(ps, ticket_type_id, true, now)
    } else {
        single_current(ps, ticket_type_id, false, now)
    }
}

/// `price` less `discount`, and no less than nothing.
pub open spec fn price_less(price: i64, discount: Option<i64>) -> int {
    let off: int = match discount {
        Some(d) => d as int,
        None => 0,
    };
    if price - off < 0 {
        0
    } else {
        price - off
    }
}

/// The unit price of a ticket line under a hold or code: a discount hold and
/// an access code take their cents off, a comp hold makes the ticket free, a
/// discount code leaves the price of the line as it is.
pub open spec fn discounted_price(price: i64, redemption: Redemption) -> int {
    match redemption {
        Redemption::Hold { hold_type: HoldTypes::Discount, discount_in_cents, .. } => price_less(
            price,
            discount_in_cents,
        ),
        Redemption::Hold { hold_type: HoldTypes::Comp, .. } => 0,
        Redemption::Code { code_type: CodeTypes::Access, discount_in_cents, .. } => price_less(
            price,
            discount_in_cents,
        ),
        _ => price as int,
    }
}

/// The unit price of a ticket line, or an error where it cannot be written.
pub open spec fn spec_unit_price(price: i64, redemption: Redemption) -> Result<i64, DatabaseError> {
    if fits_i64(discounted_price(price, redemption)) {
        Ok(discounted_price(price, redemption) as i64)
    } else {
        Err(DatabaseError::ArithmeticOverflow)
    }
}

/// Whether the range belongs to `fee_schedule_id` and starts at or below `price`.
pub open spec fn range_applies(r: FeeScheduleRange, fee_schedule_id: Id, price: i64) -> bool {
    r.fee_schedule_id == fee_schedule_id && r.min_price_in_cents <= price
}

/// Among the first `k` ranges, the index of the one that applies with the
/// highest start; of several with that start, the first.
pub open spec fn best_range_upto(
    rs: Seq<FeeScheduleRange>,
    fee_schedule_id: Id,
    price: i64,
    k: int,
) -> Option<int>
    decreases k,
{
    if k <= 0 {
        None
    } else {
        let best = best_range_upto(rs, fee_schedule_id, price, k - 1);
        if range_applies(rs[k - 1], fee_schedule_id, price) && (best is None
            || rs[best->0].min_price_in_cents < rs[k - 1].min_price_in_cents) {
            Some(k - 1)
        } else {
            best
        }
    }
}

/// The index of the range of `fee_schedule_id` for `price`.
pub open spec fn best_range(rs: Seq<FeeScheduleRange>, fee_schedule_id: Id, price: i64) -> Option<
    int,
> {
    best_range_upto(rs, fee_schedule_id, price, rs.len() as int)
}

/// What `best_range_upto` picks applies, no range that applies starts
/// higher, and none before it starts as high.
pub proof fn lemma_best_range(rs: Seq<FeeScheduleRange>, fee_schedule_id: Id, price: i64, k: int)
    requires
        0 <= k <= rs.len(),
    ensures
        match best_range_upto(rs, fee_schedule_id, price, k) {
            Some(b) => 0 <= b < k && range_applies(rs[b], fee_schedule_id, price) && (forall|j: int|
                0 <= j < k && range_applies(rs[j], fee_schedule_id, price)
                    ==> rs[j].min_price_in_cents <= rs[b].min_price_in_cents) && (forall|j: int|
                0 <= j < b && range_applies(rs[j], fee_schedule_id, price)
                    ==> rs[j].min_price_in_cents < rs[b].min_price_in_cents),
            None => forall|j: int| 0 <= j < k ==> !range_applies(rs[j], fee_schedule_id, price),
        },
    decreases k,
{
    if k > 0 {
        lemma_best_range(rs, fee_schedule_id, price, k - 1);
    }
}

fn is_current(p: &TicketPricing, ticket_type_id: Id, box_office_only: bool, now: Timestamp) -> (yes:
    bool)
    ensures
        yes == pricing_current(*p, ticket_type_id, box_office_only, now),
{
    p.ticket_type_id == ticket_type_id && p.start_date <= now && now < p.end_date && p.status
        != TicketPricingStatus::Deleted && p.is_box_office_only == box_office_only
}

fn count_current(catalog: &Catalog, ticket_type_id: Id, box_office_only: bool, now: Timestamp) -> (n:
    usize)
    ensures
        n == current_before(
            catalog@.ticket_pricing,
            ticket_type_id,
            box_office_only,
            now,
            catalog@.ticket_pricing.len() as int,
        ),
{
    let mut n: usize = 0;
    let mut k: usize = 0;
    while k < catalog.ticket_pricing.len()
        invariant
            k <= catalog.ticket_pricing.len(),
            n <= k,
            n == current_before(catalog@.ticket_pricing, ticket_type_id, box_office_only, now, k as int),
        decreases catalog.ticket_pricing.len() - k,
    {
        if is_current(&catalog.ticket_pricing[k], ticket_type_id, box_office_only, now) {
            n += 1;
        }
        k += 1;
    }
    n
}

fn find_single_current(
    catalog: &Catalog,
    ticket_type_id: Id,
    box_office_only: bool,
    now: Timestamp,
) -> (res: Result<TicketPricing, DatabaseError>)
    ensures
        res == single_current(catalog@.ticket_pricing, ticket_type_id, box_office_only, now),
{
    let n = count_current(catalog, ticket_type_id, box_office_only, now);
    if n == 0 {
        return Err(DatabaseError::NoTicketPricing { ticket_type_id });
    }
    if n > 1 {
        return Err(DatabaseError::AmbiguousTicketPricing { ticket_type_id });
    }
    let mut k: usize = 0;
    while k < catalog.ticket_pricing.len()
        invariant
            k <= catalog.ticket_pricing.len(),
            n == 1,
            n == current_before(
                catalog@.ticket_pricing,
                ticket_type_id,
                box_office_only,
                now,
                catalog@.ticket_pricing.len() as int,
            ),
            current_from(catalog@.ticket_pricing, ticket_type_id, box_office_only, now, k as int)
                == current_from(catalog@.ticket_pricing, ticket_type_id, box_office_only, now, 0),
        decreases catalog.ticket_pricing.len() - k,
    {
        if is_current(&catalog.ticket_pricing[k], ticket_type_id, box_office_only, now) {
            return Ok(catalog.ticket_pricing[k]);
        }
        k += 1;
    }
    Err(DatabaseError::NoTicketPricing { ticket_type_id })
}

impl TicketPricing {
    /// The pricing period that applies to `ticket_type_id` at `now`. Fails
    /// where none applies, or more than one.
    pub fn get_current_ticket_pricing(
        ticket_type_id: Id,
        box_office_pricing: bool,
        catalog: &Catalog,
        now: Timestamp,
    ) -> (res: Result<TicketPricing, DatabaseError>)
        ensures
            res == spec_current_ticket_pricing(
                catalog@.ticket_pricing,
                ticket_type_id,
                box_office_pricing,
                now,
            ),
    {
        if box_office_pricing && count_current(catalog, ticket_type_id, true, now) > 0 {
            find_single_current(catalog, ticket_type_id, true, now)
        } else {
            find_single_current(catalog, ticket_type_id, false, now)
        }
    }

    /// The unit price of a ticket line at the price `price` under `redemption`.
    /// Fails where the price cannot be written, which takes a discount below
    /// zero.
    pub fn unit_price(price: i64, redemption: Redemption) -> (res: Result<i64, DatabaseError>)
        ensures
            res == spec_unit_price(price, redemption),
    {
        let discount: Option<Option<i64>> = match redemption {
            Redemption::Hold { hold_type: HoldTypes::Discount, discount_in_cents, .. } => Some(
                discount_in_cents,
            ),
            Redemption::Hold { hold_type: HoldTypes::Comp, .. } => {
                return Ok(0);
            },
            Redemption::Code { code_type: CodeTypes::Access, discount_in_cents, .. } => Some(
                discount_in_cents,
            ),
            _ => None,
        };
        match discount {
            None => Ok(price),
            Some(discount_in_cents) => {
                let off: i64 = match discount_in_cents {
                    Some(d) => d,
                    None => 0,
                };
                let net: i128 = price as i128 - off as i128;
                if net < 0 {
                    Ok(0)
                } else if net > i64::MAX as i128 {
                    Err(DatabaseError::ArithmeticOverflow)
                } else {
                    Ok(net as i64)
                }
            },
        }
    }
}

impl FeeScheduleRange {
    /// The range of the schedule `fee_schedule_id` for the net price `price`:
    /// the one with the highest start at or below the price.
    pub fn find_for_price(fee_schedule_id: Id, price: i64, catalog: &Catalog) -> (found: Option<
        FeeScheduleRange,
    >)
        ensures
            match best_range(catalog@.fee_schedule_ranges, fee_schedule_id, price) {
                Some(i) => 0 <= i < catalog@.fee_schedule_ranges.len() && found == Some(
                    catalog@.fee_schedule_ranges[i],
                ),
                None => found is None,
            },
    {
        let mut best: Option<usize> = None;
        let mut k: usize = 0;
        while k < catalog.fee_schedule_ranges.len()
            invariant
                k <= catalog.fee_schedule_ranges.len(),
                match best {
                    Some(b) => b < k && best_range_upto(
                        catalog@.fee_schedule_ranges,
                        fee_schedule_id,
                        price,
                        k as int,
                    ) == Some(b as int),
                    None => best_range_upto(
                        catalog@.fee_schedule_ranges,
                        fee_schedule_id,
                        price,
                        k as int,
                    ) is None,
                },
            decreases catalog.fee_schedule_ranges.len() - k,
        {
            let r = &catalog.fee_schedule_ranges[k];
            if r.fee_schedule_id == fee_schedule_id && r.min_price_in_cents <= price {
                let better = match best {
                    Some(b) => catalog.fee_schedule_ranges[b].min_price_in_cents
                        < r.min_price_in_cents,
                    None => true,
                };
                if better {
                    best = Some(k);
                }
            }
            k += 1;
        }
        match best {
            Some(b) => Some(catalog.fee_schedule_ranges[b]),
            None => None,
        }
    }
}

} // verus!
