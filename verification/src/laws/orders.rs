//! Laws of the orders that open and close entries.
use vstd::prelude::*;

use crate::amount::Amount;
use crate::candidates::ScoredContract;
use crate::entry::SelectedOptionsEntry;
use crate::management::CloseQuote;
use crate::orders::close_legs;
use crate::orders::entry_legs;
use crate::orders::leg_id;
use crate::orders::orders_built;
use crate::orders::signed_scanner_price;
use crate::orders::spread_order_built;
use crate::orders::OptionSpreadPlan;
use crate::orders::OrderError;
use crate::orders::PlannedOrder;
use crate::planner::AlpacaOptionsPlanSide;
use crate::state::StrategyStateEntry;
use crate::symbol::is_visible;
use crate::text::opt_text;

verus! {

/// The contracts that a candidate sells to open.
pub open spec fn sold(entry: SelectedOptionsEntry) -> Seq<ScoredContract> {
    match entry {
        SelectedOptionsEntry::Credit(e) => seq![e.candidate.short],
        SelectedOptionsEntry::IronCondor(e) => seq![
            e.candidate.put.short,
            e.candidate.call.short,
        ],
        SelectedOptionsEntry::Debit(e) => seq![e.candidate.short],
        SelectedOptionsEntry::NakedOption(e) => seq![e.candidate.short],
    }
}

/// The contracts that a candidate buys to open.
pub open spec fn bought(entry: SelectedOptionsEntry) -> Seq<ScoredContract> {
    match entry {
        SelectedOptionsEntry::Credit(e) => seq![e.candidate.long],
        SelectedOptionsEntry::IronCondor(e) => seq![e.candidate.put.long, e.candidate.call.long],
        SelectedOptionsEntry::Debit(e) => seq![e.candidate.long],
        SelectedOptionsEntry::NakedOption(_) => Seq::empty(),
    }
}

/// Whether an order sells a contract at its bid.
pub open spec fn sells_at_bid(order: PlannedOrder, contract: ScoredContract) -> bool {
    order.side is Sell && order.limit_price == contract.bid && order.instrument_id@
        == contract.symbol@ + ".ALPACA"@
}

/// Whether an order buys a contract at its ask.
pub open spec fn buys_at_ask(order: PlannedOrder, contract: ScoredContract) -> bool {
    order.side is Buy && order.limit_price == contract.ask && order.instrument_id@
        == contract.symbol@ + ".ALPACA"@
}

/// Every opening order trades a contract of the candidate, and is priced off the quote of that very
/// contract: a short leg is sold at its bid, a long leg bought at its ask.
pub proof fn opening_orders_are_priced_off_their_contract(
    entry: SelectedOptionsEntry,
    orders: Vec<PlannedOrder>,
    order_list_id: Seq<char>,
    quantity: u64,
    at: int,
)
    requires
        orders_built(Ok(orders), entry_legs(entry), order_list_id, quantity, false),
        0 <= at < orders@.len(),
    ensures
        (exists|i: int|
            0 <= i < sold(entry).len() && sells_at_bid(orders@[at], #[trigger] sold(entry)[i])) || (
        exists|i: int|
            0 <= i < bought(entry).len() && buys_at_ask(orders@[at], #[trigger] bought(entry)[i])),
        orders@[at].quantity == quantity,
        !orders@[at].reduce_only,
        orders@[at].order_list_id is None,
{
    let legs = entry_legs(entry);
    let s = sold(entry);
    let b = bought(entry);
    let order = orders@[at];
    assert(crate::orders::trades(order, legs[at], order_list_id, quantity, false));
    match entry {
        SelectedOptionsEntry::Credit(_) => {
            assert(if at == 0 {
                sells_at_bid(order, s[0])
            } else {
                buys_at_ask(order, b[0])
            });
        },
        SelectedOptionsEntry::IronCondor(_) => {
            assert(if at == 0 {
                sells_at_bid(order, s[0])
            } else if at == 1 {
                buys_at_ask(order, b[0])
            } else if at == 2 {
                sells_at_bid(order, s[1])
            } else {
                buys_at_ask(order, b[1])
            });
        },
        SelectedOptionsEntry::Debit(_) => {
            assert(if at == 0 {
                buys_at_ask(order, b[0])
            } else {
                sells_at_bid(order, s[0])
            });
        },
        SelectedOptionsEntry::NakedOption(_) => {
            assert(sells_at_bid(order, s[0]));
        },
    }
}

/// Every contract of the candidate is traded: each short leg by an order that sells it at its bid, each
/// long leg by one that buys it at its ask, and there is no further order.
pub proof fn every_contract_is_traded(
    entry: SelectedOptionsEntry,
    orders: Vec<PlannedOrder>,
    order_list_id: Seq<char>,
    quantity: u64,
)
    requires
        orders_built(Ok(orders), entry_legs(entry), order_list_id, quantity, false),
    ensures
        orders@.len() == sold(entry).len() + bought(entry).len(),
        forall|i: int|
            0 <= i < sold(entry).len() ==> exists|k: int|
                0 <= k < orders@.len() && sells_at_bid(
                    #[trigger] orders@[k],
                    #[trigger] sold(entry)[i],
                ),
        forall|i: int|
            0 <= i < bought(entry).len() ==> exists|k: int|
                0 <= k < orders@.len() && buys_at_ask(
                    #[trigger] orders@[k],
                    #[trigger] bought(entry)[i],
                ),
{
    let legs = entry_legs(entry);
    let s = sold(entry);
    let b = bought(entry);
    assert forall|k: int| 0 <= k < orders@.len() implies crate::orders::trades(
        #[trigger] orders@[k],
        legs[k],
        order_list_id,
        quantity,
        false,
    ) by {
        assert(crate::orders::leg_failure(legs[k], order_list_id, quantity) is None);
    }
    match entry {
        SelectedOptionsEntry::Credit(_) => {
            assert(sells_at_bid(orders@[0], s[0]));
            assert(buys_at_ask(orders@[1], b[0]));
        },
        SelectedOptionsEntry::IronCondor(_) => {
            assert(sells_at_bid(orders@[0], s[0]));
            assert(buys_at_ask(orders@[1], b[0]));
            assert(sells_at_bid(orders@[2], s[1]));
            assert(buys_at_ask(orders@[3], b[1]));
        },
        SelectedOptionsEntry::Debit(_) => {
            assert(buys_at_ask(orders@[0], b[0]));
            assert(sells_at_bid(orders@[1], s[0]));
        },
        SelectedOptionsEntry::NakedOption(_) => {
            assert(sells_at_bid(orders@[0], s[0]));
        },
    }
}

/// Orders are built exactly when there is something to order and every contract has a price above zero
/// on its side and a symbol that names an instrument.
pub proof fn orders_need_quantity_prices_and_symbols(
    entry: SelectedOptionsEntry,
    order_list_id: Seq<char>,
    quantity: u64,
)
    ensures
        crate::orders::entry_failure(entry, order_list_id, quantity) is None <==> {
            &&& quantity > 0
            &&& forall|i: int|
                0 <= i < sold(entry).len() ==> !(#[trigger] sold(entry)[i]).bid.zero_or_below()
                    && is_visible(sold(entry)[i].symbol@)
            &&& forall|i: int|
                0 <= i < bought(entry).len() ==> !(#[trigger] bought(entry)[i]).ask.zero_or_below()
                    && is_visible(bought(entry)[i].symbol@)
        },
{
    let legs = entry_legs(entry);
    let s = sold(entry);
    let b = bought(entry);
    reveal_with_fuel(crate::orders::first_leg_failure, 5);
    match entry {
        SelectedOptionsEntry::Credit(_) => {
            assert(legs.drop_first()[0] == legs[1]);
            assert(s[0].bid == legs[0].price && b[0].ask == legs[1].price);
        },
        SelectedOptionsEntry::IronCondor(_) => {
            assert(legs.drop_first()[0] == legs[1]);
            assert(legs.drop_first().drop_first()[0] == legs[2]);
            assert(legs.drop_first().drop_first().drop_first()[0] == legs[3]);
            assert(s[0].bid == legs[0].price && b[0].ask == legs[1].price);
            assert(s[1].bid == legs[2].price && b[1].ask == legs[3].price);
        },
        SelectedOptionsEntry::Debit(_) => {
            assert(legs.drop_first()[0] == legs[1]);
            assert(b[0].ask == legs[0].price && s[0].bid == legs[1].price);
        },
        SelectedOptionsEntry::NakedOption(_) => {
            assert(s[0].bid == legs[0].price);
        },
    }
}

/// The client order IDs of an opening are those of the legs: a naked option goes under the list's own
/// ID, and every other leg under that ID and the name of what it trades.
pub proof fn opening_orders_are_named_by_their_leg(
    entry: SelectedOptionsEntry,
    orders: Vec<PlannedOrder>,
    order_list_id: Seq<char>,
    quantity: u64,
    at: int,
)
    requires
        orders_built(Ok(orders), entry_legs(entry), order_list_id, quantity, false),
        0 <= at < orders@.len(),
    ensures
        ({
            let order = orders@[at];
            let named = |label: Seq<char>| order.client_order_id@ == order_list_id + "-"@ + label;
            match entry {
                SelectedOptionsEntry::NakedOption(_) => order.client_order_id@ == order_list_id,
                SelectedOptionsEntry::IronCondor(e) => {
                    ||| named("short-put"@) && sells_at_bid(order, e.candidate.put.short)
                    ||| named("long-put"@) && buys_at_ask(order, e.candidate.put.long)
                    ||| named("short-call"@) && sells_at_bid(order, e.candidate.call.short)
                    ||| named("long-call"@) && buys_at_ask(order, e.candidate.call.long)
                },
                SelectedOptionsEntry::Credit(_) | SelectedOptionsEntry::Debit(_) => {
                    named(
                        if order.side is Sell {
                            "short"@
                        } else {
                            "long"@
                        },
                    )
                },
            }
        }),
{
    let legs = entry_legs(entry);
    assert(crate::orders::trades(orders@[at], legs[at], order_list_id, quantity, false));
}

proof fn suffixes_differ(list: Seq<char>, a: Seq<char>, b: Seq<char>)
    requires
        a != b,
    ensures
        list + "-"@ + a != list + "-"@ + b,
{
    let x = list + "-"@ + a;
    let y = list + "-"@ + b;
    let n = (list + "-"@).len() as int;
    if x == y {
        assert(x.skip(n) =~= a);
        assert(y.skip(n) =~= b);
    }
}

proof fn leg_labels_differ()
    ensures
        "short"@ != "long"@,
        "short-put"@ != "long-put"@,
        "short-put"@ != "short-call"@,
        "short-put"@ != "long-call"@,
        "long-put"@ != "short-call"@,
        "long-put"@ != "long-call"@,
        "short-call"@ != "long-call"@,
{
    reveal_strlit("short");
    reveal_strlit("long");
    reveal_strlit("short-put");
    reveal_strlit("long-put");
    reveal_strlit("short-call");
    reveal_strlit("long-call");
    assert("short"@.len() == 5 && "long"@.len() == 4);
    assert("short-put"@.len() == 9 && "long-put"@.len() == 8);
    assert("short-call"@.len() == 10 && "long-call"@.len() == 9);
    assert("short-put"@[0] == 's' && "long-call"@[0] == 'l');
}

/// No two opening orders of an entry share a client order ID.
pub proof fn client_order_ids_are_distinct(
    entry: SelectedOptionsEntry,
    orders: Vec<PlannedOrder>,
    order_list_id: Seq<char>,
    quantity: u64,
    i: int,
    j: int,
)
    requires
        orders_built(Ok(orders), entry_legs(entry), order_list_id, quantity, false),
        0 <= i < j < orders@.len(),
    ensures
        orders@[i].client_order_id@ != orders@[j].client_order_id@,
{
    let legs = entry_legs(entry);
    assert(crate::orders::trades(orders@[i], legs[i], order_list_id, quantity, false));
    assert(crate::orders::trades(orders@[j], legs[j], order_list_id, quantity, false));
    leg_labels_differ();
    assert(legs[i].label->0 != legs[j].label->0);
    suffixes_differ(order_list_id, legs[i].label->0, legs[j].label->0);
}

// ---------------------------------------------------------------------------------------------
// Closing orders
// ---------------------------------------------------------------------------------------------

/// Whether an order trades a symbol on a side for a price under a label.
pub open spec fn is_order(
    order: PlannedOrder,
    symbol: Seq<char>,
    side: AlpacaOptionsPlanSide,
    price: Amount,
    id: Seq<char>,
) -> bool {
    &&& order.instrument_id@ == symbol + ".ALPACA"@
    &&& order.side == side
    &&& order.limit_price == price
    &&& order.client_order_id@ == id
}

/// A close buys the short leg back at its ask, sells the long leg at its bid where there is one, and
/// does the same with the call legs where they are quoted; every order only reduces the position, and
/// trades the recorded quantity.
pub proof fn closing_orders_unwind_every_leg(
    entry: StrategyStateEntry,
    quote: CloseQuote,
    orders: Vec<PlannedOrder>,
    order_list_id: Seq<char>,
)
    requires
        orders_built(Ok(orders), close_legs(entry, quote), order_list_id, entry.quantity, true),
    ensures
        ({
            let has_long = entry.long_symbol@.len() > 0;
            let calls = entry.short_call_symbol is Some && entry.long_call_symbol is Some
                && quote.short_call_ask is Some && quote.long_call_bid is Some;
            let primary = if has_long {
                2int
            } else {
                1
            };
            let id = |label: Seq<char>| order_list_id + "-"@ + label;
            &&& orders@.len() == primary + (if calls {
                2int
            } else {
                0
            })
            &&& is_order(
                orders@[0],
                entry.short_symbol@,
                AlpacaOptionsPlanSide::Buy,
                quote.short_ask,
                if super::closing::named_naked(entry) {
                    order_list_id
                } else {
                    id("short-close"@)
                },
            )
            &&& has_long ==> is_order(
                orders@[1],
                entry.long_symbol@,
                AlpacaOptionsPlanSide::Sell,
                quote.long_bid,
                id("long-close"@),
            )
            &&& calls ==> is_order(
                orders@[primary],
                entry.short_call_symbol->0@,
                AlpacaOptionsPlanSide::Buy,
                quote.short_call_ask->0,
                id("short-call-close"@),
            ) && is_order(
                orders@[primary + 1],
                entry.long_call_symbol->0@,
                AlpacaOptionsPlanSide::Sell,
                quote.long_call_bid->0,
                id("long-call-close"@),
            )
            &&& forall|i: int|
                0 <= i < orders@.len() ==> (#[trigger] orders@[i]).reduce_only && orders@[i].quantity
                    == entry.quantity
        }),
{
    let legs = close_legs(entry, quote);
    assert forall|k: int| 0 <= k < orders@.len() implies crate::orders::trades(
        #[trigger] orders@[k],
        legs[k],
        order_list_id,
        entry.quantity,
        true,
    ) by {
        assert(crate::orders::leg_failure(legs[k], order_list_id, entry.quantity) is None);
    }
    let has_long = entry.long_symbol@.len() > 0;
    let calls = entry.short_call_symbol is Some && entry.long_call_symbol is Some
        && quote.short_call_ask is Some && quote.long_call_bid is Some;
    let primary = if has_long {
        2int
    } else {
        1
    };
    assert(legs.len() == primary + (if calls {
        2int
    } else {
        0
    }));
    assert(orders@[0].limit_price == legs[0].price);
    if has_long {
        assert(orders@[1].limit_price == legs[1].price);
    }
    if calls {
        assert(orders@[primary].limit_price == legs[primary].price);
        assert(orders@[primary + 1].limit_price == legs[primary + 1].price);
    }
}

// ---------------------------------------------------------------------------------------------
// Spread orders
// ---------------------------------------------------------------------------------------------

/// The order of a spread is built exactly when there is something to order, its price is not zero and
/// the spread has two legs. It is bought to open and sold to close, and only a close reduces.
pub proof fn spread_orders_buy_to_open_and_sell_to_close(
    opening: Result<PlannedOrder, OrderError>,
    closing: Result<PlannedOrder, OrderError>,
    plan: OptionSpreadPlan,
    order_list_id: Seq<char>,
    quantity: u64,
    price: Amount,
)
    requires
        spread_order_built(opening, plan, order_list_id, quantity, price, false),
        spread_order_built(closing, plan, order_list_id, quantity, price, true),
    ensures
        ({
            let orderable = quantity > 0 && plan.legs@.len() == 2 && (price.is_nan() || price.rank()
                != 0);
            &&& opening is Ok <==> orderable
            &&& closing is Ok <==> orderable
            &&& orderable ==> {
                let one = opening->Ok_0;
                let two = closing->Ok_0;
                &&& one.side is Buy && two.side is Sell
                &&& !one.reduce_only && two.reduce_only
                &&& one.client_order_id@ == order_list_id + "-"@ + "spread"@
                &&& two.client_order_id@ == order_list_id + "-"@ + "spread-close"@
                &&& one.instrument_id == plan.instrument_id && two.instrument_id
                    == plan.instrument_id
                &&& one.quantity == quantity && two.quantity == quantity
                &&& one.limit_price == price && two.limit_price == price
                &&& opt_text(one.order_list_id) == Some(order_list_id)
                &&& opt_text(two.order_list_id) == Some(order_list_id)
            }
        }),
{
}

/// The price of a spread is what it costs: a premium that is paid counts as it is, one that is received
/// as its negative.
pub proof fn received_premiums_are_negative_costs(plan: OptionSpreadPlan)
    requires
        plan.scanner_premium.above_zero(),
    ensures
        plan.scanner_premium_kind is Debit ==> signed_scanner_price(plan) == plan.scanner_premium,
        plan.scanner_premium_kind is Credit ==> signed_scanner_price(plan).negated_spec()
            == plan.scanner_premium && signed_scanner_price(plan).below(Amount { bits: 0 }),
{
}

/// The client order ID of a leg gives its list away: it is the list's ID, or continues it after a
/// hyphen.
pub proof fn leg_ids_continue_the_list(order_list_id: Seq<char>, label: Option<Seq<char>>)
    ensures
        leg_id(order_list_id, label).take(order_list_id.len() as int) == order_list_id,
        label is None ==> leg_id(order_list_id, label) == order_list_id,
        label matches Some(text) ==> leg_id(order_list_id, label).skip(
            order_list_id.len() as int,
        ) == "-"@ + text,
{
    let id = leg_id(order_list_id, label);
    assert(id.take(order_list_id.len() as int) =~= order_list_id);
    if label is Some {
        assert(id.skip(order_list_id.len() as int) =~= "-"@ + label->0);
    }
}

/// An order without a quantity fails for that before anything else.
pub proof fn quantities_are_looked_at_first(
    entry: SelectedOptionsEntry,
    order_list_id: Seq<char>,
    quantity: u64,
)
    ensures
        quantity == 0 <==> (crate::orders::entry_failure(
            entry,
            order_list_id,
            quantity,
        ) matches Some(error) && error.kind is EntryQuantity),
{
    reveal_with_fuel(crate::orders::first_leg_failure, 6);
}

/// An order under a list is the order itself, and names the list.
pub proof fn listed_orders_stay_as_they_are(
    order: crate::orders::PlannedOrder,
    order_list_id: Seq<char>,
    after: crate::orders::PlannedOrder,
)
    requires
        crate::orders::listed(order, order_list_id, after),
    ensures
        after.order_list_id matches Some(list) && list@ == order_list_id,
        after.client_order_id == order.client_order_id,
        after.instrument_id == order.instrument_id,
        after.side == order.side,
        after.quantity == order.quantity,
        after.limit_price == order.limit_price,
        after.reduce_only == order.reduce_only,
{
}

/// A close has a leg for the short contract, one for the long contract where there is one, and two for
/// the call side where it is recorded and quoted.
pub proof fn closes_have_a_leg_for_each_contract(entry: StrategyStateEntry, quote: CloseQuote)
    ensures
        close_legs(entry, quote).len() == 1 + (if entry.long_symbol@.len() > 0 {
            1int
        } else {
            0
        }) + (if entry.short_call_symbol is Some && entry.long_call_symbol is Some
            && quote.short_call_ask is Some && quote.long_call_bid is Some {
            2int
        } else {
            0
        }),
        close_legs(entry, quote)[0].symbol == entry.short_symbol@,
{
}

} // verus!
