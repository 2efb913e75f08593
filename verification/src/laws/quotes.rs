//! Laws of quotes and cached orders.
use vstd::prelude::*;

use crate::active_entry::belongs;
use crate::active_entry::spread_close_unavailable;
use crate::active_entry::SpreadQuote;
use crate::calendar::UtcInstant;
use crate::candidate_set::ProfiledOptionsEntry;
use crate::order_cache::cancellable_ids;
use crate::order_cache::leg_prices;
use crate::order_cache::list_orders;
use crate::order_cache::order_position;
use crate::order_cache::orders_with_ids;
use crate::order_cache::KnownOrder;
use crate::order_cache::LegQuote;
use crate::quotes::candidate_quoted;
use crate::quotes::quote_age;
use crate::quotes::stale_ones;
use crate::quotes::QuoteSubscriptions;
use crate::state::StrategyStateEntry;
use crate::symbol::is_visible;
use crate::text::opt_text;
use crate::text_map::TextMap;
use crate::text_set::filter_has;

verus! {

/// The stale ones of some symbols are exactly those with a quote older than the limit; without a limit
/// there are none.
pub proof fn stale_symbols_have_old_quotes(
    symbols: Seq<Seq<char>>,
    quotes: TextMap<u64>,
    limit: u64,
    now: UtcInstant,
    symbol: Seq<char>,
)
    ensures
        stale_ones(symbols, quotes, limit, now).contains(symbol) <==> {
            &&& limit > 0
            &&& symbols.contains(symbol)
            &&& is_visible(symbol)
            &&& quotes.at(symbol) matches Some(ts_event) && quote_age(ts_event, now) matches Some(age)
                && age > limit
        },
{
    if limit > 0 {
        filter_has(
            symbols,
            |s: Seq<char>| crate::quotes::quote_stale(s, quotes, limit, now),
            symbol,
        );
    }
}

/// Quotes are wanted for every leg of every open entry all of whose legs name instruments, for the
/// candidates and spreads that are followed, and for nothing else.
pub proof fn open_legs_are_quoted(
    subscriptions: QuoteSubscriptions,
    entries: Seq<StrategyStateEntry>,
    symbol: Seq<char>,
)
    ensures
        subscriptions.wants(entries, symbol) <==> {
            ||| exists|entry: StrategyStateEntry| #[trigger]
                entries.contains(entry) && super::state::open_entry(entry)
                    && entry.leg_symbols().contains(symbol) && (forall|leg: Seq<char>| #[trigger]
                    entry.leg_symbols().contains(leg) ==> is_visible(leg))
            ||| subscriptions.candidate_quotes.has(symbol)
            ||| subscriptions.candidate_spreads.has(symbol)
            ||| subscriptions.active_spreads.has(symbol)
        },
{
    if crate::quotes::quoted_leg(entries, symbol) {
        let i = choose|i: int|
            0 <= i < entries.len() && (#[trigger] entries[i]).active()
                && crate::quotes::legs_visible(entries[i]) && entries[i].leg_symbols().contains(
                symbol,
            );
        assert(entries.contains(entries[i]));
        assert forall|leg: Seq<char>| #[trigger] entries[i].leg_symbols().contains(leg) implies is_visible(
            leg,
        ) by {
            assert(is_visible(entries[i].leg_symbols()[entries[i].leg_symbols().index_of(leg)]));
        }
    }
    if exists|entry: StrategyStateEntry| #[trigger]
        entries.contains(entry) && super::state::open_entry(entry) && entry.leg_symbols().contains(
            symbol,
        ) && (forall|leg: Seq<char>| #[trigger]
            entry.leg_symbols().contains(leg) ==> is_visible(leg)) {
        let entry = choose|entry: StrategyStateEntry| #[trigger]
            entries.contains(entry) && super::state::open_entry(entry)
                && entry.leg_symbols().contains(symbol) && (forall|leg: Seq<char>| #[trigger]
                entry.leg_symbols().contains(leg) ==> is_visible(leg));
        let i = entries.index_of(entry);
        assert forall|k: int| 0 <= k < entry.leg_symbols().len() implies is_visible(
            #[trigger] entry.leg_symbols()[k],
        ) by {
            assert(entry.leg_symbols().contains(entry.leg_symbols()[k]));
        }
        assert(entries[i].active() && crate::quotes::legs_visible(entries[i]));
    }
}

/// A higher limit never follows fewer candidates, and none are followed without one.
pub proof fn higher_limits_follow_more_candidates(
    entries: Seq<ProfiledOptionsEntry>,
    lower: int,
    higher: int,
    symbol: Seq<char>,
)
    requires
        lower <= higher,
    ensures
        candidate_quoted(entries, lower, symbol) ==> candidate_quoted(entries, higher, symbol),
        !candidate_quoted(entries, 0, symbol),
        entries.len() > 0 && higher > 0 && is_visible(symbol) && entries[0].entry.symbols().contains(
            symbol,
        ) ==> candidate_quoted(entries, higher, symbol),
{
}

/// Closing prices are taken from the quotes of the entry's own legs: the ask where a leg is bought back,
/// the bid where it is sold.
pub proof fn closing_prices_are_those_of_the_legs(
    entry: StrategyStateEntry,
    quotes: TextMap<LegQuote>,
)
    requires
        is_visible(entry.short_symbol@),
        entry.long_symbol@.len() > 0 ==> is_visible(entry.long_symbol@),
    ensures
        leg_prices(entry, quotes) matches Some(ticks) && {
            &&& ticks.short_ask == match quotes.at(entry.short_symbol@) {
                Some(quote) => Some(quote.ask),
                None => None,
            }
            &&& entry.long_symbol@.len() > 0 ==> ticks.long_bid == match quotes.at(
                entry.long_symbol@,
            ) {
                Some(quote) => Some(quote.bid),
                None => None,
            }
            &&& entry.short_call_symbol matches Some(symbol) ==> (is_visible(symbol@) ==> ticks.short_call_ask
                == match quotes.at(symbol@) {
                Some(quote) => Some(quote.ask),
                None => None,
            })
            &&& entry.long_call_symbol matches Some(symbol) ==> (is_visible(symbol@) ==> ticks.long_call_bid
                == match quotes.at(symbol@) {
                Some(quote) => Some(quote.bid),
                None => None,
            })
            &&& entry.short_call_symbol is None ==> ticks.short_call_ask is None
            &&& entry.long_call_symbol is None ==> ticks.long_call_bid is None
        },
{
}

/// An entry whose legs do not name instruments cannot be priced.
pub proof fn hidden_legs_have_no_price(entry: StrategyStateEntry, quotes: TextMap<LegQuote>)
    ensures
        leg_prices(entry, quotes) is None <==> !is_visible(entry.short_symbol@) || (
        entry.long_symbol@.len() > 0 && !is_visible(entry.long_symbol@)),
{
}

/// An order belongs to a list by its list ID, by being the list's lone order, or by an ID that continues
/// the list's after a hyphen.
pub proof fn orders_belong_to_their_list(
    order_list_id: Option<Seq<char>>,
    client_order_id: Seq<char>,
    list: Seq<char>,
)
    ensures
        belongs(order_list_id, client_order_id, list) <==> {
            ||| order_list_id == Some(list)
            ||| client_order_id == list
            ||| exists|rest: Seq<char>| client_order_id == #[trigger] (list + "-"@ + rest)
        },
{
    let head = list + "-"@;
    if crate::text::begins_with(client_order_id, head) {
        let rest = client_order_id.skip(head.len() as int);
        assert(client_order_id =~= list + "-"@ + rest);
    }
    if exists|rest: Seq<char>| client_order_id == #[trigger] (list + "-"@ + rest) {
        let rest = choose|rest: Seq<char>| client_order_id == #[trigger] (list + "-"@ + rest);
        assert(client_order_id.subrange(0, head.len() as int) =~= head);
    }
}

/// The orders of a list that the cache does not have are exactly the known orders that belong to it.
pub proof fn lists_hold_what_belongs_to_them(
    orders: Seq<KnownOrder>,
    list: Seq<char>,
    order: KnownOrder,
)
    ensures
        list_orders(orders, None, list).contains(order) <==> orders.contains(order) && belongs(
            opt_text(order.order_list_id),
            order.client_order_id@,
            list,
        ),
{
    filter_has(
        orders,
        |o: KnownOrder| belongs(opt_text(o.order_list_id), o.client_order_id@, list),
        order,
    );
}

proof fn positions_find(orders: Seq<KnownOrder>, id: Seq<char>)
    ensures
        ({
            let at = order_position(orders, id);
            &&& 0 <= at <= orders.len()
            &&& at < orders.len() ==> orders[at].client_order_id@ == id
            &&& at == orders.len() ==> (forall|i: int|
                0 <= i < orders.len() ==> (#[trigger] orders[i]).client_order_id@ != id)
        }),
    decreases orders.len(),
{
    if orders.len() > 0 && orders[0].client_order_id@ != id {
        let rest = orders.drop_first();
        positions_find(rest, id);
        if order_position(orders, id) == orders.len() {
            assert forall|i: int| 0 <= i < orders.len() implies (
            #[trigger] orders[i]).client_order_id@ != id by {
                if i > 0 {
                    assert(rest[i - 1] == orders[i]);
                }
            }
        }
    }
}

/// The orders of a list that the cache has are known orders with the IDs that the list names, and an ID
/// that some known order has is always found.
pub proof fn named_orders_are_found(orders: Seq<KnownOrder>, ids: Seq<Seq<char>>, id: Seq<char>)
    ensures
        (exists|k: int|
            0 <= k < orders_with_ids(orders, ids).len() && (#[trigger] orders_with_ids(
                orders,
                ids,
            )[k]).client_order_id@ == id) <==> ids.contains(id) && exists|i: int|
            0 <= i < orders.len() && (#[trigger] orders[i]).client_order_id@ == id,
    decreases ids.len(),
{
    if ids.len() > 0 {
        let rest = ids.drop_last();
        let last = ids.last();
        named_orders_are_found(orders, rest, id);
        positions_find(orders, last);
        let at = order_position(orders, last);
        let before = orders_with_ids(orders, rest);
        let all = orders_with_ids(orders, ids);
        assert(ids.contains(id) <==> rest.contains(id) || last == id) by {
            if rest.contains(id) {
                assert(ids[rest.index_of(id)] == id);
            }
            if last == id {
                assert(ids[ids.len() - 1] == id);
            }
            if ids.contains(id) && ids.index_of(id) < rest.len() {
                assert(rest[ids.index_of(id)] == id);
            }
        }
        if at < orders.len() {
            assert(all[before.len() as int] == orders[at]);
        }
        if exists|k: int| 0 <= k < before.len() && (#[trigger] before[k]).client_order_id@ == id {
            let k = choose|k: int|
                0 <= k < before.len() && (#[trigger] before[k]).client_order_id@ == id;
            assert(all[k] == before[k]);
        }
        if exists|k: int| 0 <= k < all.len() && (#[trigger] all[k]).client_order_id@ == id {
            let k = choose|k: int| 0 <= k < all.len() && (#[trigger] all[k]).client_order_id@ == id;
            if k < before.len() {
                assert(before[k] == all[k]);
            }
        }
    }
}

/// The orders that are canceled are exactly the cancellable ones.
pub proof fn only_cancellable_orders_are_canceled(orders: Seq<KnownOrder>, id: Seq<char>)
    ensures
        cancellable_ids(orders).contains(id) <==> exists|i: int|
            0 <= i < orders.len() && (#[trigger] orders[i]).cancellable && orders[i].client_order_id@
                == id,
{
    let kept = orders.filter(|order: KnownOrder| order.cancellable);
    assert forall|o: KnownOrder| #[trigger] kept.contains(o) <==> orders.contains(o)
        && o.cancellable by {
        filter_has(orders, |order: KnownOrder| order.cancellable, o);
    }
    let ids = cancellable_ids(orders);
    if ids.contains(id) {
        let k = ids.index_of(id);
        assert(kept.contains(kept[k]));
        assert(orders[orders.index_of(kept[k])].cancellable);
    }
    if exists|i: int|
        0 <= i < orders.len() && (#[trigger] orders[i]).cancellable && orders[i].client_order_id@
            == id {
        let i = choose|i: int|
            0 <= i < orders.len() && (#[trigger] orders[i]).cancellable
                && orders[i].client_order_id@ == id;
        assert(orders.contains(orders[i]));
        assert(kept.contains(orders[i]));
        assert(ids[kept.index_of(orders[i])] == id);
    }
}

/// A spread can be closed exactly when it has a quote, the quote is not older than the limit where there
/// is one, and its bid is not zero; what is missing is named.
pub proof fn spread_closes_need_a_fresh_bid(
    quote: Option<SpreadQuote>,
    limit: u64,
    now: UtcInstant,
)
    ensures
        ({
            let stale = quote matches Some(found) && limit > 0 && (quote_age(found.ts_event, now)
                matches Some(age) && age > limit);
            let zero = quote matches Some(found) && (found.bid.bits == 0 || found.bid.bits
                == 0x8000_0000_0000_0000);
            let reason = spread_close_unavailable(quote, limit, now);
            &&& reason is None <==> quote is Some && !stale && !zero
            &&& quote is None ==> reason == Some("spread_quote_missing"@)
            &&& stale ==> reason == Some("spread_quote_stale"@)
            &&& zero && !stale ==> reason == Some("spread_quote_zero_bid"@)
        }),
{
}

} // verus!
