//! Fees and discounts: the lines of an order that follow from its ticket
//! lines. A recomputation deletes them and builds them anew, so that doing it
//! twice gives the same lines.
//!
//! First every ticket line bought under a discount code gets its discount
//! line. Then, unless the order stands at box office prices, the ticket
//! lines that belong to an event are taken in runs of the same event and
//! hold. A run under a comp hold brings no fees. In any other run each line
//! whose net price is above zero gets its per-unit fee line, and the run
//! brings the fee of its event where one of its lines has a net price above
//! zero and no earlier run has brought that fee.

use itertools::Itertools;
use std::collections::HashMap;
use vstd::prelude::*;
use crate::errors::DatabaseError;
use crate::model::{Code, Event, Order, OrderItem};
use crate::order_items::{spec_insert_item};
use crate::pricing::best_range;
use crate::store::{find_index, index_of, take_id, Catalog, CatalogState, Store, StoreState};
use crate::model::FeeScheduleRange;
use crate::types::{fits_i64, CodeTypes, HoldTypes, Id, OrderItemTypes, OrderStatus, Tables};

verus! {

/// Whether the row is a fee or discount line of the order `order_id`.
pub open spec fn is_derived(item: OrderItem, order_id: Id) -> bool {
    item.order_id == order_id && item.item_type != OrderItemTypes::Tickets
}

/// The rows among the first `k` that are no fee or discount line of `order_id`.
pub open spec fn base_items_upto(items: Seq<OrderItem>, order_id: Id, k: int) -> Seq<OrderItem>
    decreases k,
{
    if k <= 0 {
        Seq::empty()
    } else {
        let rest = base_items_upto(items, order_id, k - 1);
        if is_derived(items[k - 1], order_id) {
            rest
        } else {
            rest.push(items[k - 1])
        }
    }
}

/// The table without the fee and discount lines of `order_id`.
pub open spec fn base_items(items: Seq<OrderItem>, order_id: Id) -> Seq<OrderItem> {
    base_items_upto(items, order_id, items.len() as int)
}

/// The ticket lines of `order_id` among the first `k` rows.
pub open spec fn ticket_lines_upto(items: Seq<OrderItem>, order_id: Id, k: int) -> Seq<OrderItem>
    decreases k,
{
    if k <= 0 {
        Seq::empty()
    } else {
        let rest = ticket_lines_upto(items, order_id, k - 1);
        if items[k - 1].order_id == order_id && items[k - 1].item_type == OrderItemTypes::Tickets {
            rest.push(items[k - 1])
        } else {
            rest
        }
    }
}

/// The ticket lines of `order_id`, in table order.
pub open spec fn ticket_lines(items: Seq<OrderItem>, order_id: Id) -> Seq<OrderItem> {
    ticket_lines_upto(items, order_id, items.len() as int)
}

/// What a discount code takes off one unit of a line at `unit_price`: its
/// cents, at most the price; else its percentage of the price, at most all
/// of it. An access code, and a price of zero or less, give no discount.
pub open spec fn code_discount(code: Code, unit_price: i64) -> int {
    if code.code_type != CodeTypes::Discount || unit_price <= 0 {
        0
    } else if code.discount_in_cents is Some {
        let cents = code.discount_in_cents->0;
        if cents <= 0 {
            0
        } else if cents > unit_price {
            unit_price as int
        } else {
            cents as int
        }
    } else if code.discount_as_percentage is Some {
        let percent = code.discount_as_percentage->0;
        if percent <= 0 {
            0
        } else if percent >= 100 {
            unit_price as int
        } else {
            unit_price * percent / 100
        }
    } else {
        0
    }
}

/// What the code of a ticket line takes off one unit; an error where the
/// line names a code that does not exist.
pub open spec fn line_discount(c: CatalogState, line: OrderItem) -> Result<int, DatabaseError> {
    match line.code_id {
        None => Ok(0),
        Some(code_id) => match index_of(c.codes, code_id) {
            None => Err(DatabaseError::NotFound { table: Tables::Codes, id: code_id }),
            Some(i) => Ok(code_discount(c.codes[i], line.unit_price_in_cents)),
        },
    }
}

/// Whether a ticket line stands under a comp hold; an error where the line
/// names a hold that does not exist.
pub open spec fn line_is_comp(c: CatalogState, line: OrderItem) -> Result<bool, DatabaseError> {
    match line.hold_id {
        None => Ok(false),
        Some(hold_id) => match index_of(c.holds, hold_id) {
            None => Err(DatabaseError::NotFound { table: Tables::Holds, id: hold_id }),
            Some(i) => Ok(c.holds[i].hold_type == HoldTypes::Comp),
        },
    }
}

/// A fee or discount line before it has an identifier.
pub open spec fn derived_row(
    line: OrderItem,
    item_type: OrderItemTypes,
    quantity: i64,
    unit_price_in_cents: i64,
    fee_schedule_range_id: Option<Id>,
    parent_id: Option<Id>,
    company_fee_in_cents: i64,
    client_fee_in_cents: i64,
) -> OrderItem {
    OrderItem {
        id: 0,
        order_id: line.order_id,
        item_type,
        ticket_type_id: None,
        event_id: line.event_id,
        quantity,
        unit_price_in_cents,
        ticket_pricing_id: None,
        fee_schedule_range_id,
        parent_id,
        hold_id: None,
        code_id: None,
        company_fee_in_cents,
        client_fee_in_cents,
        refunded_quantity: 0,
    }
}

/// The discount line of a ticket line, where `discount` is above zero.
pub open spec fn discount_rows(line: OrderItem, discount: int) -> Seq<OrderItem> {
    if discount > 0 {
        seq![
            derived_row(
                line,
                OrderItemTypes::Discount,
                line.quantity,
                (-discount) as i64,
                None,
                Some(line.id),
                0,
                0,
            ),
        ]
    } else {
        Seq::empty()
    }
}

/// The per-unit fee line of a ticket line at the net price `net`.
pub open spec fn unit_fee_rows(c: CatalogState, line: OrderItem, event: Event, net: int) -> Seq<
    OrderItem,
> {
    if net > 0 && event.fee_schedule_id is Some && best_range(
        c.fee_schedule_ranges,
        event.fee_schedule_id->0,
        net as i64,
    ) is Some {
        let range = c.fee_schedule_ranges[best_range(
            c.fee_schedule_ranges,
            event.fee_schedule_id->0,
            net as i64,
        )->0];
        seq![
            derived_row(
                line,
                OrderItemTypes::PerUnitFees,
                line.quantity,
                range.fee_in_cents,
                Some(range.id),
                Some(line.id),
                range.company_fee_in_cents,
                range.client_fee_in_cents,
            ),
        ]
    } else {
        Seq::empty()
    }
}

/// The discount lines of the ticket lines from the `k`th on, added to `rows`.
pub open spec fn discounts_from(
    c: CatalogState,
    lines: Seq<OrderItem>,
    k: int,
    rows: Seq<OrderItem>,
) -> Result<Seq<OrderItem>, DatabaseError>
    decreases lines.len() - k,
{
    if k < 0 || k >= lines.len() {
        Ok(rows)
    } else {
        match line_discount(c, lines[k]) {
            Err(e) => Err(e),
            Ok(discount) => discounts_from(c, lines, k + 1, rows + discount_rows(lines[k], discount)),
        }
    }
}

/// The lines among the first `k` that belong to an event.
pub open spec fn event_lines_upto(lines: Seq<OrderItem>, k: int) -> Seq<OrderItem>
    decreases k,
{
    if k <= 0 {
        Seq::empty()
    } else {
        let rest = event_lines_upto(lines, k - 1);
        if lines[k - 1].event_id is Some {
            rest.push(lines[k - 1])
        } else {
            rest
        }
    }
}

/// The lines that belong to an event, in table order.
pub open spec fn event_lines(lines: Seq<OrderItem>) -> Seq<OrderItem> {
    event_lines_upto(lines, lines.len() as int)
}

/// What lines of one run have in common: their event and their hold.
pub open spec fn spec_fee_group(line: OrderItem) -> (Option<Id>, Option<Id>) {
    (line.event_id, line.hold_id)
}

/// Whether the `k`th line is the last of its run: no line follows, or the
/// next line is of another event or hold.
pub open spec fn ends_run(lines: Seq<OrderItem>, k: int) -> bool {
    k + 1 >= lines.len() || spec_fee_group(lines[k + 1]) != spec_fee_group(lines[k])
}

/// How far the fees have been planned.
pub struct FeeProgress {
    /// The rows planned so far.
    pub rows: Seq<OrderItem>,
    /// The events whose fee a run has brought.
    pub charged: Set<Id>,
    /// Whether a line of the current run has a net price above zero.
    pub priced: bool,
}

/// The event fee line that a run brings, with the fee of the event.
pub open spec fn event_fee_row(line: OrderItem, event: Event) -> OrderItem {
    derived_row(
        line,
        OrderItemTypes::EventFees,
        1,
        (event.client_fee_in_cents + event.company_fee_in_cents) as i64,
        None,
        None,
        event.company_fee_in_cents,
        event.client_fee_in_cents,
    )
}

/// The end of a run whose last line is `line`: the run brings the fee of
/// the event where a line of it has a net price above zero, the event
/// charges a fee and no earlier run has brought it.
pub open spec fn close_run(p: FeeProgress, line: OrderItem, event: Event) -> Result<
    FeeProgress,
    DatabaseError,
> {
    if !(p.priced && event.fee_in_cents > 0 && !p.charged.contains(event.id)) {
        Ok(FeeProgress { priced: false, ..p })
    } else if !fits_i64(event.client_fee_in_cents + event.company_fee_in_cents) {
        Err(DatabaseError::ArithmeticOverflow)
    } else {
        Ok(
            FeeProgress {
                rows: p.rows.push(event_fee_row(line, event)),
                charged: p.charged.insert(event.id),
                priced: false,
            },
        )
    }
}

/// The fees that the `k`th line of `lines`, which all belong to an event,
/// adds to the plan.
pub open spec fn fee_line(c: CatalogState, lines: Seq<OrderItem>, k: int, p: FeeProgress) -> Result<
    FeeProgress,
    DatabaseError,
> {
    let line = lines[k];
    match line_is_comp(c, line) {
        Err(e) => Err(e),
        Ok(true) => Ok(FeeProgress { priced: p.priced && !ends_run(lines, k), ..p }),
        Ok(false) => match index_of(c.events, line.event_id->0) {
            None => Err(DatabaseError::NotFound { table: Tables::Events, id: line.event_id->0 }),
            Some(i) => match line_discount(c, line) {
                Err(e) => Err(e),
                Ok(discount) => {
                    let net = line.unit_price_in_cents - discount;
                    let next = FeeProgress {
                        rows: p.rows + unit_fee_rows(c, line, c.events[i], net),
                        charged: p.charged,
                        priced: p.priced || net > 0,
                    };
                    if ends_run(lines, k) {
                        close_run(next, line, c.events[i])
                    } else {
                        Ok(next)
                    }
                },
            },
        },
    }
}

/// The fees of the lines from the `k`th on, added to the plan.
pub open spec fn fees_from(c: CatalogState, lines: Seq<OrderItem>, k: int, p: FeeProgress) -> Result<
    Seq<OrderItem>,
    DatabaseError,
>
    decreases lines.len() - k,
{
    if k < 0 || k >= lines.len() {
        Ok(p.rows)
    } else {
        match fee_line(c, lines, k, p) {
            Err(e) => Err(e),
            Ok(next) => fees_from(c, lines, k + 1, next),
        }
    }
}

/// The fees that follow the discounts `r`, where the order carries fees.
pub open spec fn fees_after(
    c: CatalogState,
    order: Order,
    lines: Seq<OrderItem>,
    r: Result<Seq<OrderItem>, DatabaseError>,
) -> Result<Seq<OrderItem>, DatabaseError> {
    match r {
        Err(e) => Err(e),
        Ok(rows) => if order.box_office_pricing {
            Ok(rows)
        } else {
            fees_from(
                c,
                event_lines(lines),
                0,
                FeeProgress { rows, charged: Set::empty(), priced: false },
            )
        },
    }
}

/// The fee and discount lines that follow from the ticket lines `lines`,
/// without identifiers.
pub open spec fn fee_plan(c: CatalogState, order: Order, lines: Seq<OrderItem>) -> Result<
    Seq<OrderItem>,
    DatabaseError,
> {
    fees_after(c, order, lines, discounts_from(c, lines, 0, Seq::empty()))
}

/// Where the run with the number `run` starts: the lengths of the runs
/// before it, added up.
pub open spec fn run_start(lengths: Seq<usize>, run: int) -> int
    decreases run,
{
    if run <= 0 {
        0
    } else {
        run_start(lengths, run - 1) + lengths[run - 1]
    }
}

/// Whether `lengths` cuts `lines` into its runs of the same event and hold:
/// no run is empty, the runs cover the lines, the lines of a run have event
/// and hold in common, and a run ends where the next line differs in one.
pub open spec fn cuts_into_runs(lines: Seq<OrderItem>, lengths: Seq<usize>) -> bool {
    &&& forall|r: int| 0 <= r < lengths.len() ==> #[trigger] lengths[r] > 0
    &&& run_start(lengths, lengths.len() as int) == lines.len()
    &&& forall|r: int, j: int|
        0 <= r < lengths.len() && 0 <= j < lengths[r] - 1 ==> spec_fee_group(
            #[trigger] lines[run_start(lengths, r) + j + 1],
        ) == spec_fee_group(lines[run_start(lengths, r) + j])
    &&& forall|r: int|
        0 < r < lengths.len() ==> spec_fee_group(#[trigger] lines[run_start(lengths, r)])
            != spec_fee_group(lines[run_start(lengths, r) - 1])
}

/// The state after the planned rows from the `k`th on were added, each under
/// a new identifier.
pub open spec fn insert_planned_from(s: StoreState, rows: Seq<OrderItem>, k: int) -> Result<
    StoreState,
    DatabaseError,
>
    decreases rows.len() - k,
{
    if k < 0 || k >= rows.len() {
        Ok(s)
    } else {
        match take_id(s) {
            None => Err(DatabaseError::IdentifiersExhausted),
            Some((s1, id)) => match spec_insert_item(s1.order_items, OrderItem { id, ..rows[k] }) {
                Err(e) => Err(e),
                Ok(items) => insert_planned_from(StoreState { order_items: items, ..s1 }, rows, k + 1),
            },
        }
    }
}

/// The recomputation of the fees and discounts of a draft order.
pub open spec fn spec_update_fees(c: CatalogState, s: StoreState, order: Order) -> Result<
    StoreState,
    DatabaseError,
> {
    if order.status != OrderStatus::Draft {
        Err(DatabaseError::DeleteFromNonDraftOrder)
    } else {
        match fee_plan(c, order, ticket_lines(s.order_items, order.id)) {
            Err(e) => Err(e),
            Ok(rows) => insert_planned_from(
                StoreState { order_items: base_items(s.order_items, order.id), ..s },
                rows,
                0,
            ),
        }
    }
}

fn discount_of(code: &Code, unit_price: i64) -> (discount: i64)
    ensures
        discount == code_discount(*code, unit_price),
        0 <= discount,
        unit_price > 0 ==> discount <= unit_price,
        unit_price <= 0 ==> discount == 0,
{
    if code.code_type != CodeTypes::Discount || unit_price <= 0 {
        return 0;
    }
    match code.discount_in_cents {
        Some(cents) => {
            if cents <= 0 {
                0
            } else if cents > unit_price {
                unit_price
            } else {
                cents
            }
        },
        None => match code.discount_as_percentage {
            Some(percent) => {
                if percent <= 0 {
                    0
                } else if percent >= 100 {
                    unit_price
                } else {
                    assert(0 <= unit_price * percent <= i64::MAX * 100) by (nonlinear_arith)
                        requires
                            0 < unit_price <= i64::MAX,
                            0 < percent < 100,
                    ;
                    let product: i128 = unit_price as i128 * percent as i128;
                    assert(unit_price * percent / 100 <= unit_price) by (nonlinear_arith)
                        requires
                            0 < unit_price,
                            0 < percent < 100,
                    ;
                    assert(0 <= unit_price * percent / 100) by (nonlinear_arith)
                        requires
                            0 < unit_price,
                            0 < percent < 100,
                    ;
                    (product / 100) as i64
                }
            },
            None => 0,
        },
    }
}

fn template(
    line: &OrderItem,
    item_type: OrderItemTypes,
    quantity: i64,
    unit_price_in_cents: i64,
    fee_schedule_range_id: Option<Id>,
    parent_id: Option<Id>,
    company_fee_in_cents: i64,
    client_fee_in_cents: i64,
) -> (row: OrderItem)
    ensures
        row == derived_row(
            *line,
            item_type,
            quantity,
            unit_price_in_cents,
            fee_schedule_range_id,
            parent_id,
            company_fee_in_cents,
            client_fee_in_cents,
        ),
{
    OrderItem {
        id: 0,
        order_id: line.order_id,
        item_type,
        ticket_type_id: None,
        event_id: line.event_id,
        quantity,
        unit_price_in_cents,
        ticket_pricing_id: None,
        fee_schedule_range_id,
        parent_id,
        hold_id: None,
        code_id: None,
        company_fee_in_cents,
        client_fee_in_cents,
        refunded_quantity: 0,
    }
}

/// The event and the hold of a line: what the lines of one run have in common.
pub fn fee_group(line: &OrderItem) -> (group: (Option<Id>, Option<Id>))
    ensures
        group == spec_fee_group(*line),
{
    (line.event_id, line.hold_id)
}

/// `Itertools::chunk_by` of the itertools crate, over the lines keyed by
/// event and hold, each chunk handed out as its length: consecutive lines
/// with the same key form one chunk, so that the lengths cut the lines into
/// their runs.
#[verifier::external_body]
fn run_lengths(lines: &Vec<OrderItem>) -> (lengths: Vec<usize>)
    ensures
        cuts_into_runs(lines@, lengths@),
{
    let mut lengths: Vec<usize> = Vec::new();
    for (_, chunk) in &lines.iter().chunk_by(|line| fee_group(line)) {
        lengths.push(chunk.count());
    }
    lengths
}

proof fn lemma_run_start_grows(lengths: Seq<usize>, a: int, b: int)
    requires
        0 <= a <= b <= lengths.len(),
    ensures
        run_start(lengths, a) <= run_start(lengths, b),
    decreases b - a,
{
    if a < b {
        lemma_run_start_grows(lengths, a, b - 1);
    }
}

proof fn lemma_run_shares_group(lines: Seq<OrderItem>, lengths: Seq<usize>, run: int, i: int)
    requires
        cuts_into_runs(lines, lengths),
        0 <= run < lengths.len(),
        0 <= i < lengths[run],
    ensures
        spec_fee_group(lines[run_start(lengths, run) + i]) == spec_fee_group(
            lines[run_start(lengths, run)],
        ),
    decreases i,
{
    if i > 0 {
        lemma_run_shares_group(lines, lengths, run, i - 1);
        assert(spec_fee_group(lines[run_start(lengths, run) + (i - 1) + 1]) == spec_fee_group(
            lines[run_start(lengths, run) + (i - 1)],
        ));
    }
}

fn net_price(catalog: &Catalog, line: &OrderItem) -> (res: Result<i64, DatabaseError>)
    ensures
        match line_discount(catalog@, *line) {
            Ok(discount) => res == Ok::<i64, DatabaseError>(
                (line.unit_price_in_cents - discount) as i64,
            ) && 0 <= discount && fits_i64(line.unit_price_in_cents - discount) && (discount > 0
                ==> discount <= line.unit_price_in_cents),
            Err(e) => res == Err::<i64, DatabaseError>(e),
        },
{
    let discount: i64 = match line.code_id {
        None => 0,
        Some(code_id) => match find_index(&catalog.codes, code_id) {
            None => {
                return Err(DatabaseError::NotFound { table: Tables::Codes, id: code_id });
            },
            Some(i) => discount_of(&catalog.codes[i], line.unit_price_in_cents),
        },
    };
    Ok(line.unit_price_in_cents - discount)
}

fn is_comp(catalog: &Catalog, line: &OrderItem) -> (res: Result<bool, DatabaseError>)
    ensures
        res == line_is_comp(catalog@, *line),
{
    match line.hold_id {
        None => Ok(false),
        Some(hold_id) => match find_index(&catalog.holds, hold_id) {
            None => Err(DatabaseError::NotFound { table: Tables::Holds, id: hold_id }),
            Some(i) => Ok(catalog.holds[i].hold_type == HoldTypes::Comp),
        },
    }
}

fn plan_discounts(catalog: &Catalog, lines: &Vec<OrderItem>) -> (res: Result<
    Vec<OrderItem>,
    DatabaseError,
>)
    ensures
        match discounts_from(catalog@, lines@, 0, Seq::empty()) {
            Ok(rows) => res is Ok && res->Ok_0@ == rows,
            Err(e) => res == Err::<Vec<OrderItem>, DatabaseError>(e),
        },
{
    let mut rows: Vec<OrderItem> = Vec::new();
    let mut k: usize = 0;
    while k < lines.len()
        invariant
            k <= lines.len(),
            discounts_from(catalog@, lines@, k as int, rows@) == discounts_from(
                catalog@,
                lines@,
                0,
                Seq::empty(),
            ),
        decreases lines.len() - k,
    {
        let line = &lines[k];
        let net = net_price(catalog, line)?;
        let discount: i64 = line.unit_price_in_cents - net;
        let ghost before = rows@;
        if discount > 0 {
            rows.push(
                template(
                    line,
                    OrderItemTypes::Discount,
                    line.quantity,
                    -discount,
                    None,
                    Some(line.id),
                    0,
                    0,
                ),
            );
        }
        assert(rows@ =~= before + discount_rows(*line, discount as int));
        k += 1;
    }
    Ok(rows)
}

fn lines_with_event(lines: &Vec<OrderItem>) -> (found: Vec<OrderItem>)
    ensures
        found@ == event_lines(lines@),
        forall|i: int| 0 <= i < found@.len() ==> (#[trigger] found@[i]).event_id is Some,
{
    let mut found: Vec<OrderItem> = Vec::new();
    let mut k: usize = 0;
    while k < lines.len()
        invariant
            k <= lines.len(),
            found@ == event_lines_upto(lines@, k as int),
            forall|i: int| 0 <= i < found@.len() ==> (#[trigger] found@[i]).event_id is Some,
        decreases lines.len() - k,
    {
        if lines[k].event_id.is_some() {
            found.push(lines[k]);
        }
        k += 1;
    }
    found
}

/// Plans the per-unit fee line of one line of a run that stands under no
/// comp hold, and notes whether the line has a net price above zero.
fn plan_unit_fee(
    catalog: &Catalog,
    line: &OrderItem,
    event: &Event,
    rows: &mut Vec<OrderItem>,
    priced: &mut bool,
) -> (res: Result<(), DatabaseError>)
    ensures
        match line_discount(catalog@, *line) {
            Ok(discount) => res is Ok && final(rows)@ == old(rows)@ + unit_fee_rows(
                catalog@,
                *line,
                *event,
                line.unit_price_in_cents - discount,
            ) && *final(priced) == (*old(priced) || line.unit_price_in_cents - discount > 0),
            Err(e) => res == Err::<(), DatabaseError>(e),
        },
{
    let net = net_price(catalog, line)?;
    if net > 0 {
        *priced = true;
        match event.fee_schedule_id {
            Some(fee_schedule_id) => match FeeScheduleRange::find_for_price(
                fee_schedule_id,
                net,
                catalog,
            ) {
                Some(range) => {
                    rows.push(
                        template(
                            line,
                            OrderItemTypes::PerUnitFees,
                            line.quantity,
                            range.fee_in_cents,
                            Some(range.id),
                            Some(line.id),
                            range.company_fee_in_cents,
                            range.client_fee_in_cents,
                        ),
                    );
                },
                None => {},
            },
            None => {},
        }
    }
    assert(rows@ =~= old(rows)@ + unit_fee_rows(catalog@, *line, *event, net as int));
    Ok(())
}

/// Ends a run whose last line is `line`.
fn plan_event_fee(
    line: &OrderItem,
    event: &Event,
    rows: &mut Vec<OrderItem>,
    charged: &mut HashMap<Id, bool>,
    priced: &mut bool,
) -> (res: Result<(), DatabaseError>)
    ensures
        match close_run(
            FeeProgress { rows: old(rows)@, charged: old(charged)@.dom(), priced: *old(priced) },
            *line,
            *event,
        ) {
            Ok(p) => res is Ok && final(rows)@ == p.rows && final(charged)@.dom() == p.charged
                && *final(priced) == p.priced,
            Err(e) => res == Err::<(), DatabaseError>(e),
        },
{
    broadcast use vstd::std_specs::hash::group_hash_axioms;

    if *priced && event.fee_in_cents > 0 && !charged.contains_key(&event.id) {
        let fee = match event.client_fee_in_cents.checked_add(event.company_fee_in_cents) {
            Some(fee) => fee,
            None => {
                return Err(DatabaseError::ArithmeticOverflow);
            },
        };
        rows.push(
            template(
                line,
                OrderItemTypes::EventFees,
                1,
                fee,
                None,
                None,
                event.company_fee_in_cents,
                event.client_fee_in_cents,
            ),
        );
        charged.insert(event.id, true);
    }
    *priced = false;
    Ok(())
}

/// Plans the fees of the lines `lines`, which all belong to an event, run
/// by run, after the rows `rows`.
fn plan_runs(catalog: &Catalog, lines: &Vec<OrderItem>, planned: Vec<OrderItem>) -> (res: Result<
    Vec<OrderItem>,
    DatabaseError,
>)
    requires
        forall|i: int| 0 <= i < lines@.len() ==> (#[trigger] lines@[i]).event_id is Some,
    ensures
        match fees_from(
            catalog@,
            lines@,
            0,
            FeeProgress { rows: planned@, charged: Set::empty(), priced: false },
        ) {
            Ok(all) => res is Ok && res->Ok_0@ == all,
            Err(e) => res == Err::<Vec<OrderItem>, DatabaseError>(e),
        },
{
    let ghost goal = fees_from(
        catalog@,
        lines@,
        0,
        FeeProgress { rows: planned@, charged: Set::empty(), priced: false },
    );
    let lengths = run_lengths(lines);
    let mut rows = planned;
    let mut charged: HashMap<Id, bool> = HashMap::new();
    let mut priced = false;
    let mut start: usize = 0;
    let mut run: usize = 0;
    while run < lengths.len()
        invariant
            run <= lengths.len(),
            cuts_into_runs(lines@, lengths@),
            forall|i: int| 0 <= i < lines@.len() ==> (#[trigger] lines@[i]).event_id is Some,
            start == run_start(lengths@, run as int),
            start <= lines.len(),
            !priced,
            goal == fees_from(
                catalog@,
                lines@,
                0,
                FeeProgress { rows: planned@, charged: Set::empty(), priced: false },
            ),
            fees_from(
                catalog@,
                lines@,
                start as int,
                FeeProgress { rows: rows@, charged: charged@.dom(), priced },
            ) == goal,
        decreases lengths.len() - run,
    {
        let length = lengths[run];
        proof {
            lemma_run_start_grows(lengths@, run as int + 1, lengths@.len() as int);
            assert(run_start(lengths@, run as int + 1) == start + length);
        }
        let first = lines[start];
        let comp = is_comp(catalog, &first)?;
        let event_id = first.event_id.unwrap();
        let event = if comp {
            None
        } else {
            match find_index(&catalog.events, event_id) {
                None => {
                    return Err(DatabaseError::NotFound { table: Tables::Events, id: event_id });
                },
                Some(i) => Some(catalog.events[i]),
            }
        };
        let mut j: usize = 0;
        while j < length
            invariant
                j <= length,
                length == lengths@[run as int],
                run < lengths.len(),
                start == run_start(lengths@, run as int),
                start + length <= lines.len(),
                start + length == run_start(lengths@, run as int + 1),
                cuts_into_runs(lines@, lengths@),
                forall|i: int| 0 <= i < lines@.len() ==> (#[trigger] lines@[i]).event_id is Some,
                first == lines@[start as int],
                line_is_comp(catalog@, first) == Ok::<bool, DatabaseError>(comp),
                first.event_id == Some(event_id),
                match event {
                    Some(e) => !comp && index_of(catalog@.events, event_id) is Some
                        && catalog@.events[index_of(catalog@.events, event_id)->0] == e,
                    None => comp,
                },
                j == length ==> !priced,
                goal == fees_from(
                    catalog@,
                    lines@,
                    0,
                    FeeProgress { rows: planned@, charged: Set::empty(), priced: false },
                ),
                fees_from(
                    catalog@,
                    lines@,
                    start + j,
                    FeeProgress { rows: rows@, charged: charged@.dom(), priced },
                ) == goal,
            decreases length - j,
        {
            let line = lines[start + j];
            proof {
                lemma_run_shares_group(lines@, lengths@, run as int, j as int);
                assert(spec_fee_group(line) == spec_fee_group(first));
                if j + 1 < length {
                    assert(spec_fee_group(lines@[run_start(lengths@, run as int) + j + 1])
                        == spec_fee_group(lines@[run_start(lengths@, run as int) + j]));
                } else if run + 1 < lengths.len() {
                    assert(spec_fee_group(lines@[run_start(lengths@, run as int + 1)])
                        != spec_fee_group(lines@[run_start(lengths@, run as int + 1) - 1]));
                } else {
                    assert(run_start(lengths@, run as int + 1) == lines@.len());
                }
                assert(ends_run(lines@, start + j) == (j + 1 == length));
            }
            match event {
                None => {},
                Some(event) => {
                    plan_unit_fee(catalog, &line, &event, &mut rows, &mut priced)?;
                    if j + 1 == length {
                        plan_event_fee(&line, &event, &mut rows, &mut charged, &mut priced)?;
                    }
                },
            }
            if j + 1 == length {
                priced = false;
            }
            j += 1;
        }
        start = start + length;
        run += 1;
    }
    Ok(rows)
}

impl Order {
    /// The ticket lines of the order, in table order.
    pub fn ticket_items(&self, store: &Store) -> (lines: Vec<OrderItem>)
        ensures
            lines@ == ticket_lines(store@.order_items, self.id),
    {
        let mut lines: Vec<OrderItem> = Vec::new();
        let mut k: usize = 0;
        while k < store.order_items.len()
            invariant
                k <= store.order_items.len(),
                lines@ == ticket_lines_upto(store@.order_items, self.id, k as int),
            decreases store.order_items.len() - k,
        {
            let item = store.order_items[k];
            if item.order_id == self.id && item.item_type == OrderItemTypes::Tickets {
                lines.push(item);
            }
            k += 1;
        }
        lines
    }

    /// The fee and discount lines that follow from the ticket lines of the
    /// order, without identifiers.
    pub fn plan_fees(&self, catalog: &Catalog, store: &Store) -> (res: Result<
        Vec<OrderItem>,
        DatabaseError,
    >)
        ensures
            match fee_plan(catalog@, *self, ticket_lines(store@.order_items, self.id)) {
                Ok(rows) => res is Ok && res->Ok_0@ == rows,
                Err(e) => res == Err::<Vec<OrderItem>, DatabaseError>(e),
            },
    {
        let lines = self.ticket_items(store);
        let rows = plan_discounts(catalog, &lines)?;
        if self.box_office_pricing {
            return Ok(rows);
        }
        let with_event = lines_with_event(&lines);
        plan_runs(catalog, &with_event, rows)
    }

    /// Recomputes the fees and discounts of the order. Where it fails, the
    /// store may hold a part of the new lines.
    pub(crate) fn try_update_fees(&self, catalog: &Catalog, store: &mut Store) -> (res: Result<
        (),
        DatabaseError,
    >)
        ensures
            match spec_update_fees(catalog@, old(store)@, *self) {
                Ok(s) => res is Ok && final(store)@ == s,
                Err(e) => res == Err::<(), DatabaseError>(e),
            },
    {
        if self.status != OrderStatus::Draft {
            return Err(DatabaseError::DeleteFromNonDraftOrder);
        }
        let rows = self.plan_fees(catalog, store)?;
        let mut kept: Vec<OrderItem> = Vec::new();
        let mut k: usize = 0;
        while k < store.order_items.len()
            invariant
                k <= store.order_items.len(),
                store@ == old(store)@,
                kept@ == base_items_upto(store@.order_items, self.id, k as int),
            decreases store.order_items.len() - k,
        {
            let item = store.order_items[k];
            if !(item.order_id == self.id && item.item_type != OrderItemTypes::Tickets) {
                kept.push(item);
            }
            k += 1;
        }
        store.order_items = kept;
        let ghost goal = spec_update_fees(catalog@, old(store)@, *self);
        let mut k: usize = 0;
        while k < rows.len()
            invariant
                k <= rows.len(),
                insert_planned_from(store@, rows@, k as int) == goal,
                goal == spec_update_fees(catalog@, old(store)@, *self),
            decreases rows.len() - k,
        {
            let id = store.allocate_id()?;
            let mut row = rows[k];
            row.id = id;
            row.insert(store)?;
            k += 1;
        }
        Ok(())
    }

    /// Recomputes the fees and discounts of a draft order: its fee and
    /// discount lines are deleted, and the lines that follow from its ticket
    /// lines are added. Where it fails, nothing changes.
    pub fn update_fees(&self, catalog: &Catalog, store: &mut Store) -> (res: Result<
        (),
        DatabaseError,
    >)
        ensures
            match spec_update_fees(catalog@, old(store)@, *self) {
                Ok(s) => res is Ok && final(store)@ == s,
                Err(e) => res == Err::<(), DatabaseError>(e) && final(store)@ == old(store)@,
            },
    {
        let saved = store.snapshot();
        let res = self.try_update_fees(catalog, store);
        if res.is_err() {
            *store = saved;
        }
        res
    }
}

} // verus!
