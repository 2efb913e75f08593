//! What the runtime cache tells of order lists and of the legs of an entry.
use vstd::prelude::*;

use crate::active_entry::belongs;
use crate::active_entry::order_belongs_to_list;
use crate::active_entry::CachedOrder;
use crate::amount::Amount;
use crate::management::CloseTicks;
use crate::state::StrategyStateEntry;
use crate::symbol::alpaca_instrument_id;
use crate::symbol::is_visible;
use crate::text::copy_opt;
use crate::text::opt_text;
use crate::text::same_text;
use crate::text::texts;
use crate::text_map::TextMap;
use crate::text_set::filter_has;
use crate::text_set::filter_step;

verus! {

/// An order of the cache.
#[derive(Clone, Debug)]
pub struct KnownOrder {
    /// Client order ID.
    pub client_order_id: String,
    /// Order-list ID.
    pub order_list_id: Option<String>,
    /// What its status says.
    pub status: CachedOrder,
    /// Whether the order can be canceled.
    pub cancellable: bool,
}

impl KnownOrder {
    /// Returns a copy.
    pub fn copy(&self) -> (copy: KnownOrder)
        ensures
            copy == *self,
    {
        KnownOrder {
            client_order_id: self.client_order_id.clone(),
            order_list_id: copy_opt(&self.order_list_id),
            status: self.status,
            cancellable: self.cancellable,
        }
    }
}

/// The position of the order with a client order ID, or the number of orders where there is none.
pub open spec fn order_position(orders: Seq<KnownOrder>, client_order_id: Seq<char>) -> int
    decreases orders.len(),
{
    if orders.len() == 0 || orders[0].client_order_id@ == client_order_id {
        0
    } else {
        1 + order_position(orders.drop_first(), client_order_id)
    }
}

/// The orders with some client order IDs, in the order of the IDs; unknown IDs are passed over.
pub open spec fn orders_with_ids(orders: Seq<KnownOrder>, ids: Seq<Seq<char>>) -> Seq<KnownOrder>
    decreases ids.len(),
{
    if ids.len() == 0 {
        Seq::empty()
    } else {
        let at = order_position(orders, ids.last());
        let earlier = orders_with_ids(orders, ids.drop_last());
        if at < orders.len() {
            earlier.push(orders[at])
        } else {
            earlier
        }
    }
}

/// The orders of an order list: those it names where the cache has it, else those that belong to it.
pub open spec fn list_orders(
    orders: Seq<KnownOrder>,
    listed: Option<Seq<Seq<char>>>,
    list: Seq<char>,
) -> Seq<KnownOrder> {
    match listed {
        Some(ids) => orders_with_ids(orders, ids),
        None => orders.filter(
            |order: KnownOrder| belongs(opt_text(order.order_list_id), order.client_order_id@, list),
        ),
    }
}

proof fn order_position_is(orders: Seq<KnownOrder>, client_order_id: Seq<char>, at: int)
    requires
        0 <= at <= orders.len(),
        at < orders.len() ==> orders[at].client_order_id@ == client_order_id,
        forall|k: int| 0 <= k < at ==> (#[trigger] orders[k]).client_order_id@ != client_order_id,
    ensures
        order_position(orders, client_order_id) == at,
    decreases orders.len(),
{
    if at > 0 {
        let rest = orders.drop_first();
        assert forall|k: int| 0 <= k < at - 1 implies (#[trigger] rest[k]).client_order_id@
            != client_order_id by {
            assert(rest[k] == orders[k + 1]);
        }
        assert(orders[0].client_order_id@ != client_order_id);
        order_position_is(rest, client_order_id, at - 1);
    }
}

fn find_order(orders: &Vec<KnownOrder>, client_order_id: &str) -> (at: usize)
    ensures
        at == order_position(orders@, client_order_id@),
        at <= orders@.len(),
{
    let n: usize = orders.len();
    let mut at: usize = 0;
    while at < n && !same_text(orders[at].client_order_id.as_str(), client_order_id)
        invariant
            n == orders@.len(),
            at <= n,
            forall|k: int|
                0 <= k < at ==> (#[trigger] orders@[k]).client_order_id@ != client_order_id@,
        decreases n - at,
    {
        at += 1;
    }
    proof {
        order_position_is(orders@, client_order_id@, at as int);
    }
    at
}

fn listed_orders(orders: &Vec<KnownOrder>, ids: &Vec<String>) -> (found: Vec<KnownOrder>)
    ensures
        found@ == orders_with_ids(orders@, texts(ids@)),
{
    let mut found: Vec<KnownOrder> = Vec::new();
    let n: usize = ids.len();
    let ghost all = texts(ids@);
    for i in 0..n
        invariant
            n == ids@.len(),
            all == texts(ids@),
            found@ == orders_with_ids(orders@, all.take(i as int)),
    {
        let at = find_order(orders, ids[i].as_str());
        if at < orders.len() {
            found.push(orders[at].copy());
        }
        proof {
            assert(all.take(i + 1).drop_last() =~= all.take(i as int));
            assert(all.take(i + 1).last() == ids@[i as int]@);
        }
    }
    assert(all.take(n as int) =~= all);
    found
}

/// Returns the orders of an order list. `listed` holds the client order IDs that the cache has under
/// the list, where it has the list.
pub fn order_list_orders(
    orders: &Vec<KnownOrder>,
    listed: &Option<Vec<String>>,
    list: &str,
) -> (found: Vec<KnownOrder>)
    ensures
        found@ == list_orders(
            orders@,
            match *listed {
                Some(ids) => Some(texts(ids@)),
                None => None,
            },
            list@,
        ),
{
    match listed {
        Some(ids) => listed_orders(orders, ids),
        None => {
            let mut found: Vec<KnownOrder> = Vec::new();
            let n: usize = orders.len();
            let ghost pass = |order: KnownOrder|
                belongs(opt_text(order.order_list_id), order.client_order_id@, list@);
            proof {
                reveal(Seq::filter);
                assert(orders@.take(0).filter(pass) =~= Seq::<KnownOrder>::empty());
            }
            for i in 0..n
                invariant
                    n == orders@.len(),
                    pass == (|order: KnownOrder|
                        belongs(opt_text(order.order_list_id), order.client_order_id@, list@)),
                    found@ == orders@.take(i as int).filter(pass),
            {
                let order = &orders[i];
                if order_belongs_to_list(
                    &order.order_list_id,
                    order.client_order_id.as_str(),
                    list,
                ) {
                    found.push(order.copy());
                }
                proof {
                    filter_step(orders@, i as int, pass);
                }
            }
            assert(orders@.take(n as int) =~= orders@);
            found
        },
    }
}

/// What the statuses of some orders say.
pub open spec fn statuses_of(orders: Seq<KnownOrder>) -> Seq<CachedOrder> {
    Seq::new(orders.len(), |i: int| orders[i].status)
}

/// Returns what the statuses of some orders say.
pub fn order_statuses(orders: &Vec<KnownOrder>) -> (statuses: Vec<CachedOrder>)
    ensures
        statuses@ == statuses_of(orders@),
{
    let mut statuses: Vec<CachedOrder> = Vec::new();
    let n: usize = orders.len();
    for i in 0..n
        invariant
            n == orders@.len(),
            statuses@.len() == i,
            forall|k: int| 0 <= k < i ==> #[trigger] statuses@[k] == orders@[k].status,
    {
        statuses.push(orders[i].status);
    }
    assert(statuses@ =~= statuses_of(orders@));
    statuses
}

/// The client order IDs of the orders that can be canceled.
pub open spec fn cancellable_ids(orders: Seq<KnownOrder>) -> Seq<Seq<char>> {
    let kept = orders.filter(|order: KnownOrder| order.cancellable);
    Seq::new(kept.len(), |i: int| kept[i].client_order_id@)
}

/// Returns the client order IDs of the orders that can be canceled.
pub fn cancellable_order_ids(orders: &Vec<KnownOrder>) -> (ids: Vec<String>)
    ensures
        texts(ids@) == cancellable_ids(orders@),
{
    let mut ids: Vec<String> = Vec::new();
    let n: usize = orders.len();
    let ghost pass = |order: KnownOrder| order.cancellable;
    proof {
        reveal(Seq::filter);
        assert(orders@.take(0).filter(pass) =~= Seq::<KnownOrder>::empty());
        assert(texts(ids@) =~= cancellable_ids(orders@.take(0)));
    }
    for i in 0..n
        invariant
            n == orders@.len(),
            pass == (|order: KnownOrder| order.cancellable),
            texts(ids@) == cancellable_ids(orders@.take(i as int)),
    {
        let ghost before = texts(ids@);
        if orders[i].cancellable {
            ids.push(orders[i].client_order_id.clone());
            assert(texts(ids@) =~= before.push(orders@[i as int].client_order_id@));
        }
        proof {
            filter_step(orders@, i as int, pass);
            let kept = orders@.take(i + 1).filter(pass);
            assert(before =~= Seq::new(
                orders@.take(i as int).filter(pass).len(),
                |k: int| orders@.take(i as int).filter(pass)[k].client_order_id@,
            ));
            assert(texts(ids@) =~= Seq::new(kept.len(), |k: int| kept[k].client_order_id@));
        }
    }
    assert(orders@.take(n as int) =~= orders@);
    ids
}

/// An order of a list that can be canceled is canceled, and no order outside the list is.
pub proof fn cancellation_stays_within_the_list(
    orders: Seq<KnownOrder>,
    list: Seq<char>,
    id: Seq<char>,
)
    ensures
        cancellable_ids(list_orders(orders, None, list)).contains(id) <==> exists|k: int|
            0 <= k < orders.len() && (#[trigger] orders[k]).client_order_id@ == id
                && orders[k].cancellable && belongs(
                opt_text(orders[k].order_list_id),
                orders[k].client_order_id@,
                list,
            ),
{
    let in_list = |order: KnownOrder|
        belongs(opt_text(order.order_list_id), order.client_order_id@, list);
    let can = |order: KnownOrder| order.cancellable;
    let listed = orders.filter(in_list);
    let kept = listed.filter(can);
    let ids = cancellable_ids(listed);
    if ids.contains(id) {
        let order = kept[ids.index_of(id)];
        assert(kept.contains(order));
        filter_has(listed, can, order);
        filter_has(orders, in_list, order);
        assert(orders[orders.index_of(order)].client_order_id@ == id);
    }
    if exists|k: int|
        0 <= k < orders.len() && (#[trigger] orders[k]).client_order_id@ == id
            && orders[k].cancellable && in_list(orders[k]) {
        let k = choose|k: int|
            0 <= k < orders.len() && (#[trigger] orders[k]).client_order_id@ == id
                && orders[k].cancellable && in_list(orders[k]);
        filter_has(orders, in_list, orders[k]);
        filter_has(listed, can, orders[k]);
        assert(ids[kept.index_of(orders[k])] == id);
    }
}

// ---------------------------------------------------------------------------------------------
// Quotes
// ---------------------------------------------------------------------------------------------

/// The last quote of an option.
#[derive(Clone, Copy, Debug)]
pub struct LegQuote {
    /// Bid price.
    pub bid: Amount,
    /// Ask price.
    pub ask: Amount,
}

/// The quote of a symbol; a symbol without a visible character has none.
pub open spec fn quote_at(quotes: TextMap<LegQuote>, symbol: Seq<char>) -> Option<LegQuote> {
    if is_visible(symbol) {
        quotes.at(symbol)
    } else {
        None
    }
}

/// The quote of a symbol, where there is a symbol.
pub open spec fn opt_quote_at(quotes: TextMap<LegQuote>, symbol: Option<String>) -> Option<LegQuote> {
    match symbol {
        Some(text) => quote_at(quotes, text@),
        None => None,
    }
}

/// The ask of a quote.
pub open spec fn ask_of(quote: Option<LegQuote>) -> Option<Amount> {
    match quote {
        Some(found) => Some(found.ask),
        None => None,
    }
}

/// The bid of a quote.
pub open spec fn bid_of(quote: Option<LegQuote>) -> Option<Amount> {
    match quote {
        Some(found) => Some(found.bid),
        None => None,
    }
}

/// The prices on the legs of an entry. There are none where a primary leg has no instrument; an entry
/// without a long leg has no price on it.
pub open spec fn leg_prices(entry: StrategyStateEntry, quotes: TextMap<LegQuote>) -> Option<CloseTicks> {
    if !is_visible(entry.short_symbol@) || (entry.long_symbol@.len() > 0 && !is_visible(
        entry.long_symbol@,
    )) {
        None
    } else {
        Some(
            CloseTicks {
                short_ask: ask_of(quote_at(quotes, entry.short_symbol@)),
                long_bid: bid_of(quote_at(quotes, entry.long_symbol@)),
                short_call_ask: ask_of(opt_quote_at(quotes, entry.short_call_symbol)),
                long_call_bid: bid_of(opt_quote_at(quotes, entry.long_call_symbol)),
            },
        )
    }
}

fn find_quote(quotes: &TextMap<LegQuote>, symbol: &str) -> (quote: Option<LegQuote>)
    ensures
        quote == quote_at(*quotes, symbol@),
{
    if alpaca_instrument_id(symbol).is_none() {
        return None;
    }
    match quotes.get(symbol) {
        Some(found) => Some(*found),
        None => None,
    }
}

fn find_opt_quote(quotes: &TextMap<LegQuote>, symbol: &Option<String>) -> (quote: Option<LegQuote>)
    ensures
        quote == opt_quote_at(*quotes, *symbol),
{
    match symbol {
        Some(text) => find_quote(quotes, text.as_str()),
        None => None,
    }
}

fn ask(quote: Option<LegQuote>) -> (price: Option<Amount>)
    ensures
        price == ask_of(quote),
{
    match quote {
        Some(found) => Some(found.ask),
        None => None,
    }
}

fn bid(quote: Option<LegQuote>) -> (price: Option<Amount>)
    ensures
        price == bid_of(quote),
{
    match quote {
        Some(found) => Some(found.bid),
        None => None,
    }
}

/// Returns the prices on the legs of an entry from the last quotes by symbol.
pub fn close_ticks_from_cache(entry: &StrategyStateEntry, quotes: &TextMap<LegQuote>) -> (ticks: Option<
    CloseTicks,
>)
    ensures
        ticks == leg_prices(*entry, *quotes),
{
    if alpaca_instrument_id(entry.short_symbol.as_str()).is_none() {
        return None;
    }
    if !entry.long_symbol.as_str().is_empty() && alpaca_instrument_id(
        entry.long_symbol.as_str(),
    ).is_none() {
        return None;
    }
    Some(
        CloseTicks {
            short_ask: ask(find_quote(quotes, entry.short_symbol.as_str())),
            long_bid: bid(find_quote(quotes, entry.long_symbol.as_str())),
            short_call_ask: ask(find_opt_quote(quotes, &entry.short_call_symbol)),
            long_call_bid: bid(find_opt_quote(quotes, &entry.long_call_symbol)),
        },
    )
}

} // verus!
