//! Read-only preview of broker spread state mapped onto spread identity.
use vstd::prelude::*;

use crate::broker::AlpacaActivity;
use crate::broker::AlpacaOrder;
use crate::broker::AlpacaPosition;
use crate::orders::OptionSpreadLeg;
use crate::orders::OptionSpreadPlan;
use crate::state::StrategyState;
use crate::state::StrategyStateEntry;
use crate::text::as_slice;
use crate::text::copy_opt;
use crate::text::is_text;
use crate::text::non_empty;
use crate::text::non_empty_chars;
use crate::text::opt_slice;
use crate::text::opt_text;
use crate::text::texts;
use crate::text_set::ascending;
use crate::text_set::filter_step;
use crate::text_set::sets_with_equal_elements_are_equal;
use crate::text_set::shared;
use crate::text_set::without;
use crate::text_set::TextSet;

verus! {

/// Numbers of a preview.
#[derive(Clone, Copy, Debug, PartialEq, Eq, Structural)]
pub struct SpreadReconciliationSummary {
    /// Spreads in the strategy state.
    pub state_spreads: usize,
    /// Spreads that the broker holds or works on every leg of.
    pub matched_spreads: usize,
    /// Spreads that the broker holds or works on some legs of.
    pub partial_spreads: usize,
    /// Spreads that the broker holds or works on no leg of.
    pub missing_spreads: usize,
    /// Open multi-leg orders.
    pub broker_mleg_orders: usize,
    /// Option positions.
    pub broker_position_legs: usize,
    /// Legs that no spread accounts for.
    pub unmanaged_extra_legs: usize,
    /// Open orders that map onto no spread, or onto none alone.
    pub unknown_parent_leg_mappings: usize,
}

/// One leg of a spread and where the broker shows it.
#[derive(Clone, Debug)]
pub struct SpreadLegPreview {
    /// Option symbol.
    pub symbol: String,
    /// Instrument ID.
    pub instrument_id: String,
    /// Signed contracts per spread.
    pub ratio: i64,
    /// Whether there is a position in the leg.
    pub position_present: bool,
    /// Whether an open order works on the leg.
    pub open_order_present: bool,
    /// Whether a recent activity names the leg.
    pub recent_activity_seen: bool,
}

/// A broker order that touches a spread.
#[derive(Clone, Debug)]
pub struct BrokerOrderRef {
    /// Where the order was listed.
    pub source: &'static str,
    /// Broker order ID.
    pub id: Option<String>,
    /// Client order ID.
    pub client_order_id: Option<String>,
    /// Order status.
    pub status: Option<String>,
    /// Order class.
    pub order_class: Option<String>,
    /// Option symbols in order.
    pub symbols: Vec<String>,
    /// Whether the symbols are exactly those of the spread.
    pub mapping: &'static str,
}

/// A broker activity on a leg of a spread.
#[derive(Clone, Debug)]
pub struct BrokerActivityRef {
    /// Activity ID.
    pub id: Option<String>,
    /// Activity type.
    pub activity_type: Option<String>,
    /// Order ID.
    pub order_id: Option<String>,
    /// Symbol.
    pub symbol: Option<String>,
    /// Side.
    pub side: Option<String>,
    /// Quantity.
    pub qty: Option<String>,
    /// Price.
    pub price: Option<String>,
    /// Transaction time.
    pub transaction_time: Option<String>,
}

/// A leg at the broker that no spread accounts for.
#[derive(Clone, Debug)]
pub struct BrokerLegPreview {
    /// Where the leg was found.
    pub source: &'static str,
    /// Symbol.
    pub symbol: String,
    /// Quantity.
    pub qty: Option<String>,
    /// Side.
    pub side: Option<String>,
    /// Order ID.
    pub order_id: Option<String>,
    /// Client order ID.
    pub client_order_id: Option<String>,
    /// Order status.
    pub status: Option<String>,
}

/// An open order that maps onto no spread, or onto none alone.
#[derive(Clone, Debug)]
pub struct BrokerOrderMappingPreview {
    /// Why the order is shown.
    pub reason: &'static str,
    /// Broker order ID.
    pub id: Option<String>,
    /// Client order ID.
    pub client_order_id: Option<String>,
    /// Order status.
    pub status: Option<String>,
    /// Order class.
    pub order_class: Option<String>,
    /// Option symbols in order.
    pub symbols: Vec<String>,
    /// Order-list IDs of the spreads that the order may belong to.
    pub candidate_order_list_ids: Vec<String>,
}

/// A spread of the strategy state and what the broker shows of it.
#[derive(Clone, Debug)]
pub struct StateSpreadPreview {
    /// How much of the spread the broker holds or works on.
    pub status: &'static str,
    /// Market trade date.
    pub trade_date: String,
    /// Underlying symbol.
    pub underlying: String,
    /// Strategy name.
    pub strategy: String,
    /// Order-list ID.
    pub order_list_id: String,
    /// Order-list ID of the working close.
    pub close_order_list_id: Option<String>,
    /// Spread instrument ID.
    pub spread_instrument_id: String,
    /// Spread symbol.
    pub spread_symbol: String,
    /// Legs.
    pub legs: Vec<SpreadLegPreview>,
    /// How much of the spread the broker holds.
    pub position_status: &'static str,
    /// How much of the spread open orders work on.
    pub open_order_status: &'static str,
    /// Leg symbols with a position.
    pub matched_position_symbols: Vec<String>,
    /// Leg symbols with an open order.
    pub matched_open_order_symbols: Vec<String>,
    /// Leg symbols with neither.
    pub missing_symbols: Vec<String>,
    /// Open orders that touch the spread.
    pub open_orders: Vec<BrokerOrderRef>,
    /// Recent orders that touch the spread.
    pub recent_orders: Vec<BrokerOrderRef>,
    /// Recent activities on the legs.
    pub recent_activities: Vec<BrokerActivityRef>,
}

/// The preview.
#[derive(Clone, Debug)]
pub struct SpreadReconciliationPreview {
    /// Numbers.
    pub summary: SpreadReconciliationSummary,
    /// Spreads of the strategy state.
    pub state_spreads: Vec<StateSpreadPreview>,
    /// Legs that no spread accounts for.
    pub unmanaged_extra_legs: Vec<BrokerLegPreview>,
    /// Open orders that map onto no spread, or onto none alone.
    pub unknown_parent_leg_mappings: Vec<BrokerOrderMappingPreview>,
}

// ---------------------------------------------------------------------------------------------
// Symbols
// ---------------------------------------------------------------------------------------------

/// The symbol of an option order, without white space around it.
pub open spec fn own_option_symbol(order: AlpacaOrder) -> Option<Seq<char>> {
    if opt_text(order.asset_class) == Some("us_option"@) {
        non_empty_chars(opt_text(order.symbol))
    } else {
        None
    }
}

/// Whether an option symbol is that of an order or of a leg at any depth.
pub open spec fn names_option(order: AlpacaOrder, symbol: Seq<char>) -> bool
    decreases order,
{
    own_option_symbol(order) == Some(symbol) || match order.legs {
        Some(legs) => legs_name_option(legs@, symbol, legs@.len()),
        None => false,
    }
}

/// Whether one of the first `n` legs names an option symbol.
pub open spec fn legs_name_option(legs: Seq<AlpacaOrder>, symbol: Seq<char>, n: nat) -> bool
    decreases legs, n,
{
    if n == 0 || n > legs.len() {
        false
    } else {
        legs_name_option(legs, symbol, (n - 1) as nat) || names_option(legs[n - 1], symbol)
    }
}

fn own_symbol(order: &AlpacaOrder) -> (symbol: Option<&str>)
    ensures
        opt_slice(symbol) == own_option_symbol(*order),
{
    if is_text(&order.asset_class, "us_option") {
        non_empty(as_slice(&order.symbol))
    } else {
        None
    }
}

fn push_option_order_symbols(order: &AlpacaOrder, symbols: &mut TextSet)
    requires
        old(symbols).wf(),
    ensures
        final(symbols).wf(),
        forall|x: Seq<char>|
            #[trigger] final(symbols).has(x) <==> old(symbols).has(x) || names_option(*order, x),
    decreases order,
{
    match &order.legs {
        Some(legs) => {
            let n: usize = legs.len();
            for i in 0..n
                invariant
                    n == legs@.len(),
                    order.legs == Some(*legs),
                    symbols.wf(),
                    forall|x: Seq<char>|
                        #[trigger] symbols.has(x) <==> old(symbols).has(x) || legs_name_option(
                            legs@,
                            x,
                            i as nat,
                        ),
            {
                let ghost before = *symbols;
                assert(decreases_to!(*order => order.legs->0));
                assert(decreases_to!(*legs => legs[i as int]));
                push_option_order_symbols(&legs[i], symbols);
                proof {
                    assert forall|x: Seq<char>|
                        #[trigger] symbols.has(x) <==> old(symbols).has(x) || legs_name_option(
                            legs@,
                            x,
                            (i + 1) as nat,
                        ) by {
                        assert(before.has(x) <==> old(symbols).has(x) || legs_name_option(
                            legs@,
                            x,
                            i as nat,
                        ));
                    }
                }
            }
        },
        None => {},
    }
    let ghost nested = *symbols;
    match own_symbol(order) {
        Some(symbol) => {
            symbols.insert(symbol.to_owned());
        },
        None => {},
    }
    proof {
        assert forall|x: Seq<char>|
            #[trigger] symbols.has(x) <==> old(symbols).has(x) || names_option(*order, x) by {
            assert(symbols.has(x) <==> nested.has(x) || own_option_symbol(*order) == Some(x));
            match order.legs {
                Some(legs) => {
                    assert(nested.has(x) <==> old(symbols).has(x) || legs_name_option(
                        legs@,
                        x,
                        legs@.len(),
                    ));
                },
                None => {},
            }
        }
    }
}

/// Returns the option symbols of an order and of its legs.
pub fn order_symbol_set(order: &AlpacaOrder) -> (symbols: TextSet)
    ensures
        symbols.wf(),
        forall|x: Seq<char>| #[trigger] symbols.has(x) <==> names_option(*order, x),
{
    let mut symbols = TextSet::new();
    push_option_order_symbols(order, &mut symbols);
    symbols
}

/// Whether one of some orders names an option symbol.
pub open spec fn orders_name_option(orders: Seq<AlpacaOrder>, symbol: Seq<char>) -> bool {
    exists|i: int| 0 <= i < orders.len() && names_option(#[trigger] orders[i], symbol)
}

/// Returns the option symbols of some orders and of their legs.
pub fn option_order_symbols(orders: &Vec<AlpacaOrder>) -> (symbols: TextSet)
    ensures
        symbols.wf(),
        forall|x: Seq<char>| #[trigger] symbols.has(x) <==> orders_name_option(orders@, x),
{
    let mut symbols = TextSet::new();
    let n: usize = orders.len();
    for i in 0..n
        invariant
            n == orders@.len(),
            symbols.wf(),
            forall|x: Seq<char>|
                #[trigger] symbols.has(x) <==> (exists|k: int|
                    0 <= k < i && names_option(#[trigger] orders@[k], x)),
    {
        let ghost before = symbols;
        push_option_order_symbols(&orders[i], &mut symbols);
        proof {
            assert forall|x: Seq<char>|
                #[trigger] symbols.has(x) <==> (exists|k: int|
                    0 <= k < i + 1 && names_option(#[trigger] orders@[k], x)) by {
                assert(before.has(x) <==> (exists|k: int|
                    0 <= k < i && names_option(#[trigger] orders@[k], x)));
                if names_option(orders@[i as int], x) {
                    assert(names_option(orders@[i as int], x));
                }
            }
        }
    }
    symbols
}

/// The symbol of an option position, without white space around it.
pub open spec fn option_position(position: AlpacaPosition) -> Option<Seq<char>> {
    if opt_text(position.asset_class) == Some("us_option"@) {
        non_empty_chars(opt_text(position.symbol))
    } else {
        None
    }
}

/// Returns the symbol of an option position.
pub fn option_position_symbol(position: &AlpacaPosition) -> (symbol: Option<&str>)
    ensures
        opt_slice(symbol) == option_position(*position),
{
    if is_text(&position.asset_class, "us_option") {
        non_empty(as_slice(&position.symbol))
    } else {
        None
    }
}

/// Whether one of some positions is an option position in a symbol.
pub open spec fn positions_hold(positions: Seq<AlpacaPosition>, symbol: Seq<char>) -> bool {
    exists|i: int| 0 <= i < positions.len() && option_position(#[trigger] positions[i]) == Some(symbol)
}

/// Returns the symbols of the option positions.
pub fn option_position_symbols(positions: &Vec<AlpacaPosition>) -> (symbols: TextSet)
    ensures
        symbols.wf(),
        forall|x: Seq<char>| #[trigger] symbols.has(x) <==> positions_hold(positions@, x),
{
    let mut symbols = TextSet::new();
    let n: usize = positions.len();
    for i in 0..n
        invariant
            n == positions@.len(),
            symbols.wf(),
            forall|x: Seq<char>|
                #[trigger] symbols.has(x) <==> (exists|k: int|
                    0 <= k < i && option_position(#[trigger] positions@[k]) == Some(x)),
    {
        let ghost before = symbols;
        match option_position_symbol(&positions[i]) {
            Some(symbol) => {
                symbols.insert(symbol.to_owned());
            },
            None => {},
        }
        proof {
            assert forall|x: Seq<char>|
                #[trigger] symbols.has(x) <==> (exists|k: int|
                    0 <= k < i + 1 && option_position(#[trigger] positions@[k]) == Some(x)) by {
                assert(before.has(x) <==> (exists|k: int|
                    0 <= k < i && option_position(#[trigger] positions@[k]) == Some(x)));
                if option_position(positions@[i as int]) == Some(x) {
                    assert(option_position(positions@[i as int]) == Some(x));
                }
            }
        }
    }
    symbols
}

/// Whether one of some activities names a symbol.
pub open spec fn activities_name(activities: Seq<AlpacaActivity>, symbol: Seq<char>) -> bool {
    exists|i: int|
        0 <= i < activities.len() && non_empty_chars(opt_text((#[trigger] activities[i]).symbol))
            == Some(symbol)
}

/// Returns the symbols of some activities.
pub fn activity_symbols(activities: &Vec<AlpacaActivity>) -> (symbols: TextSet)
    ensures
        symbols.wf(),
        forall|x: Seq<char>| #[trigger] symbols.has(x) <==> activities_name(activities@, x),
{
    let mut symbols = TextSet::new();
    let n: usize = activities.len();
    for i in 0..n
        invariant
            n == activities@.len(),
            symbols.wf(),
            forall|x: Seq<char>|
                #[trigger] symbols.has(x) <==> (exists|k: int|
                    0 <= k < i && non_empty_chars(opt_text((#[trigger] activities@[k]).symbol))
                        == Some(x)),
    {
        let ghost before = symbols;
        match non_empty(as_slice(&activities[i].symbol)) {
            Some(symbol) => {
                symbols.insert(symbol.to_owned());
            },
            None => {},
        }
        proof {
            assert forall|x: Seq<char>|
                #[trigger] symbols.has(x) <==> (exists|k: int|
                    0 <= k < i + 1 && non_empty_chars(opt_text((#[trigger] activities@[k]).symbol))
                        == Some(x)) by {
                assert(before.has(x) <==> (exists|k: int|
                    0 <= k < i && non_empty_chars(opt_text((#[trigger] activities@[k]).symbol))
                        == Some(x)));
                if non_empty_chars(opt_text(activities@[i as int].symbol)) == Some(x) {
                    assert(non_empty_chars(opt_text(activities@[i as int].symbol)) == Some(x));
                }
            }
        }
    }
    symbols
}

// ---------------------------------------------------------------------------------------------
// Orders and spreads
// ---------------------------------------------------------------------------------------------

/// Whether an order names an option of a spread.
pub open spec fn touches(order: AlpacaOrder, expected: TextSet) -> bool {
    exists|x: Seq<char>| #[trigger] names_option(order, x) && expected.has(x)
}

/// Whether the options of an order are exactly those of a spread.
pub open spec fn covers(order: AlpacaOrder, expected: TextSet) -> bool {
    forall|x: Seq<char>| #[trigger] names_option(order, x) <==> expected.has(x)
}

/// Whether an order names no option.
pub open spec fn names_nothing(order: AlpacaOrder) -> bool {
    forall|x: Seq<char>| !#[trigger] names_option(order, x)
}

/// Whether texts are the option symbols of an order, in order.
pub open spec fn lists_options(symbols: Seq<Seq<char>>, order: AlpacaOrder) -> bool {
    ascending(symbols) && forall|x: Seq<char>| #[trigger] symbols.contains(x) <==> names_option(order, x)
}

fn set_touches(symbols: &TextSet, expected: &TextSet, order: &AlpacaOrder) -> (yes: bool)
    requires
        forall|x: Seq<char>| #[trigger] symbols.has(x) <==> names_option(*order, x),
    ensures
        yes == touches(*order, *expected),
{
    let disjoint: bool = symbols.is_disjoint(expected);
    proof {
        if touches(*order, *expected) {
            let x = choose|x: Seq<char>| #[trigger] names_option(*order, x) && expected.has(x);
            assert(symbols.has(x));
        }
        if !disjoint {
            let x = choose|x: Seq<char>| #[trigger] symbols.has(x) && expected.has(x);
            assert(names_option(*order, x));
        }
    }
    !disjoint
}

fn set_covers(symbols: &TextSet, expected: &TextSet, order: &AlpacaOrder) -> (yes: bool)
    requires
        symbols.wf(),
        expected.wf(),
        forall|x: Seq<char>| #[trigger] symbols.has(x) <==> names_option(*order, x),
    ensures
        yes == covers(*order, *expected),
{
    let same: bool = symbols.same_as(expected);
    proof {
        if covers(*order, *expected) {
            assert forall|x: Seq<char>| symbols.has(x) <==> expected.has(x) by {
                assert(names_option(*order, x) <==> expected.has(x));
            }
            sets_with_equal_elements_are_equal(*symbols, *expected);
        }
        if same {
            assert forall|x: Seq<char>| #[trigger] names_option(*order, x) <==> expected.has(x) by {
                assert(symbols.has(x) <==> names_option(*order, x));
            }
        }
    }
    same
}

/// Whether a reference shows an order.
pub open spec fn shows_order(
    shown: BrokerOrderRef,
    order: AlpacaOrder,
    source: Seq<char>,
    expected: TextSet,
) -> bool {
    &&& shown.source@ == source
    &&& shown.id == order.id
    &&& shown.client_order_id == order.client_order_id
    &&& shown.status == order.status
    &&& shown.order_class == order.order_class
    &&& lists_options(texts(shown.symbols@), order)
    &&& shown.mapping@ == if covers(order, expected) {
        "matched"@
    } else {
        "partial"@
    }
}

/// Whether references show, in order, the orders that touch a spread.
pub open spec fn shows_orders(
    shown: Seq<BrokerOrderRef>,
    orders: Seq<AlpacaOrder>,
    source: Seq<char>,
    expected: TextSet,
) -> bool {
    let kept = orders.filter(|order: AlpacaOrder| touches(order, expected));
    shown.len() == kept.len() && forall|i: int|
        0 <= i < kept.len() ==> shows_order(#[trigger] shown[i], kept[i], source, expected)
}

fn symbols_as_texts(symbols: &TextSet, order: &AlpacaOrder) -> (items: Vec<String>)
    requires
        symbols.wf(),
        forall|x: Seq<char>| #[trigger] symbols.has(x) <==> names_option(*order, x),
    ensures
        lists_options(texts(items@), *order),
{
    let items = symbols.to_texts();
    proof {
        assert forall|x: Seq<char>|
            #[trigger] texts(items@).contains(x) <==> names_option(*order, x) by {
            assert(symbols.has(x) <==> names_option(*order, x));
        }
    }
    items
}

/// Returns references to the orders that touch a spread.
pub fn matching_order_refs(
    orders: &Vec<AlpacaOrder>,
    expected_symbols: &TextSet,
    source: &'static str,
) -> (refs: Vec<BrokerOrderRef>)
    requires
        expected_symbols.wf(),
    ensures
        shows_orders(refs@, orders@, source@, *expected_symbols),
{
    let mut refs: Vec<BrokerOrderRef> = Vec::new();
    let n: usize = orders.len();
    let ghost pass = |order: AlpacaOrder| touches(order, *expected_symbols);
    proof {
        reveal(Seq::filter);
        assert(orders@.take(0).filter(pass).len() == 0);
    }
    for i in 0..n
        invariant
            n == orders@.len(),
            expected_symbols.wf(),
            pass == (|order: AlpacaOrder| touches(order, *expected_symbols)),
            refs@.len() == orders@.take(i as int).filter(pass).len(),
            forall|k: int|
                0 <= k < refs@.len() ==> shows_order(
                    #[trigger] refs@[k],
                    orders@.take(i as int).filter(pass)[k],
                    source@,
                    *expected_symbols,
                ),
    {
        let order = &orders[i];
        proof {
            filter_step(orders@, i as int, pass);
        }
        let symbols = order_symbol_set(order);
        if set_touches(&symbols, expected_symbols, order) {
            let mapping = if set_covers(&symbols, expected_symbols, order) {
                "matched"
            } else {
                "partial"
            };
            refs.push(
                BrokerOrderRef {
                    source,
                    id: copy_opt(&order.id),
                    client_order_id: copy_opt(&order.client_order_id),
                    status: copy_opt(&order.status),
                    order_class: copy_opt(&order.order_class),
                    symbols: symbols_as_texts(&symbols, order),
                    mapping,
                },
            );
        }
    }
    assert(orders@.take(n as int) =~= orders@);
    refs
}

// ---------------------------------------------------------------------------------------------
// Unmanaged legs
// ---------------------------------------------------------------------------------------------

/// What a leg preview says.
pub struct LegPreviewView {
    /// Where the leg was found.
    pub source: Seq<char>,
    /// Symbol.
    pub symbol: Seq<char>,
    /// Quantity.
    pub qty: Option<Seq<char>>,
    /// Side.
    pub side: Option<Seq<char>>,
    /// Order ID.
    pub order_id: Option<Seq<char>>,
    /// Client order ID.
    pub client_order_id: Option<Seq<char>>,
    /// Order status.
    pub status: Option<Seq<char>>,
}

impl View for BrokerLegPreview {
    type V = LegPreviewView;

    open spec fn view(&self) -> LegPreviewView {
        LegPreviewView {
            source: self.source@,
            symbol: self.symbol@,
            qty: opt_text(self.qty),
            side: opt_text(self.side),
            order_id: opt_text(self.order_id),
            client_order_id: opt_text(self.client_order_id),
            status: opt_text(self.status),
        }
    }
}

/// What some leg previews say.
pub open spec fn leg_preview_views(legs: Seq<BrokerLegPreview>) -> Seq<LegPreviewView> {
    Seq::new(legs.len(), |i: int| legs[i]@)
}

/// The preview of an order's own leg.
pub open spec fn own_leg(order: AlpacaOrder) -> Seq<LegPreviewView> {
    match own_option_symbol(order) {
        Some(symbol) => seq![
            LegPreviewView {
                source: "open_order"@,
                symbol,
                qty: opt_text(order.qty),
                side: opt_text(order.side),
                order_id: opt_text(order.id),
                client_order_id: opt_text(order.client_order_id),
                status: opt_text(order.status),
            },
        ],
        None => Seq::empty(),
    }
}

/// The previews of an order: those of its nested legs in order, then its own.
pub open spec fn order_leg_views(order: AlpacaOrder) -> Seq<LegPreviewView>
    decreases order,
{
    (match order.legs {
        Some(legs) => nested_leg_views(legs@, legs@.len()),
        None => Seq::empty(),
    }) + own_leg(order)
}

/// The previews of the first `n` legs.
pub open spec fn nested_leg_views(legs: Seq<AlpacaOrder>, n: nat) -> Seq<LegPreviewView>
    decreases legs, n,
{
    if n == 0 || n > legs.len() {
        Seq::empty()
    } else {
        nested_leg_views(legs, (n - 1) as nat) + order_leg_views(legs[n - 1])
    }
}

fn push_option_order_leg_previews(order: &AlpacaOrder, previews: &mut Vec<BrokerLegPreview>)
    ensures
        leg_preview_views(final(previews)@) == leg_preview_views(old(previews)@) + order_leg_views(
            *order,
        ),
    decreases order,
{
    let ghost start = leg_preview_views(previews@);
    match &order.legs {
        Some(legs) => {
            let n: usize = legs.len();
            assert(start =~= start + nested_leg_views(legs@, 0));
            for i in 0..n
                invariant
                    n == legs@.len(),
                    order.legs == Some(*legs),
                    leg_preview_views(previews@) == start + nested_leg_views(legs@, i as nat),
            {
                assert(decreases_to!(*order => order.legs->0));
                assert(decreases_to!(*legs => legs[i as int]));
                push_option_order_leg_previews(&legs[i], previews);
                assert(leg_preview_views(previews@) =~= start + nested_leg_views(
                    legs@,
                    (i + 1) as nat,
                ));
            }
        },
        None => {},
    }
    let ghost nested = leg_preview_views(previews@);
    match own_symbol(order) {
        Some(symbol) => {
            previews.push(
                BrokerLegPreview {
                    source: "open_order",
                    symbol: symbol.to_owned(),
                    qty: copy_opt(&order.qty),
                    side: copy_opt(&order.side),
                    order_id: copy_opt(&order.id),
                    client_order_id: copy_opt(&order.client_order_id),
                    status: copy_opt(&order.status),
                },
            );
        },
        None => {},
    }
    assert(leg_preview_views(previews@) =~= nested + own_leg(*order));
    assert(leg_preview_views(previews@) =~= start + order_leg_views(*order));
}

/// The positions that no spread accounts for.
pub open spec fn unmanaged_positions(positions: Seq<AlpacaPosition>, managed: TextSet) -> Seq<
    LegPreviewView,
>
    decreases positions.len(),
{
    if positions.len() == 0 {
        Seq::empty()
    } else {
        let earlier = unmanaged_positions(positions.drop_last(), managed);
        let last = positions.last();
        match non_empty_chars(opt_text(last.symbol)) {
            Some(symbol) => if managed.has(symbol) {
                earlier
            } else {
                earlier.push(
                    LegPreviewView {
                        source: "position"@,
                        symbol,
                        qty: opt_text(last.qty),
                        side: opt_text(last.side),
                        order_id: None,
                        client_order_id: None,
                        status: None,
                    },
                )
            },
            None => earlier,
        }
    }
}

/// The order legs that no spread accounts for.
pub open spec fn unmanaged_order_legs(orders: Seq<AlpacaOrder>, managed: TextSet) -> Seq<
    LegPreviewView,
>
    decreases orders.len(),
{
    if orders.len() == 0 {
        Seq::empty()
    } else {
        unmanaged_order_legs(orders.drop_last(), managed) + order_leg_views(orders.last()).filter(
            |leg: LegPreviewView| !managed.has(leg.symbol),
        )
    }
}

/// Returns the legs at the broker that no spread accounts for: positions first, then order legs.
pub fn unmanaged_extra_legs(
    positions: &Vec<AlpacaPosition>,
    open_orders: &Vec<AlpacaOrder>,
    active_spread_symbols: &TextSet,
) -> (legs: Vec<BrokerLegPreview>)
    ensures
        leg_preview_views(legs@) == unmanaged_positions(positions@, *active_spread_symbols)
            + unmanaged_order_legs(open_orders@, *active_spread_symbols),
{
    let mut legs: Vec<BrokerLegPreview> = Vec::new();
    let n: usize = positions.len();
    assert(leg_preview_views(legs@) =~= Seq::<LegPreviewView>::empty());
    for i in 0..n
        invariant
            n == positions@.len(),
            leg_preview_views(legs@) == unmanaged_positions(
                positions@.take(i as int),
                *active_spread_symbols,
            ),
    {
        let position = &positions[i];
        let ghost before = legs@;
        proof {
            let next = positions@.take(i + 1);
            assert(next.drop_last() =~= positions@.take(i as int));
            assert(next.last() == *position);
        }
        match non_empty(as_slice(&position.symbol)) {
            Some(symbol) => {
                if !active_spread_symbols.contains(symbol) {
                    legs.push(
                        BrokerLegPreview {
                            source: "position",
                            symbol: symbol.to_owned(),
                            qty: copy_opt(&position.qty),
                            side: copy_opt(&position.side),
                            order_id: None,
                            client_order_id: None,
                            status: None,
                        },
                    );
                    assert(leg_preview_views(legs@) =~= leg_preview_views(before).push(
                        legs@.last()@,
                    ));
                }
            },
            None => {},
        }
    }
    assert(positions@.take(n as int) =~= positions@);
    let ghost held = leg_preview_views(legs@);
    let m: usize = open_orders.len();
    assert(held =~= held + unmanaged_order_legs(open_orders@.take(0), *active_spread_symbols));
    for i in 0..m
        invariant
            m == open_orders@.len(),
            leg_preview_views(legs@) == held + unmanaged_order_legs(
                open_orders@.take(i as int),
                *active_spread_symbols,
            ),
    {
        let mut previews: Vec<BrokerLegPreview> = Vec::new();
        push_option_order_leg_previews(&open_orders[i], &mut previews);
        let ghost all = order_leg_views(open_orders@[i as int]);
        assert(leg_preview_views(previews@) =~= all);
        let ghost shown = previews@;
        let ghost before = leg_preview_views(legs@);
        let ghost pass = |leg: LegPreviewView| !active_spread_symbols.has(leg.symbol);
        let count: usize = previews.len();
        let mut j: usize = 0;
        proof {
            reveal(Seq::filter);
            assert(before =~= before + all.take(0).filter(pass));
            assert(previews@ =~= shown.skip(0));
        }
        while j < count
            invariant
                count == shown.len(),
                j <= count,
                previews@ == shown.skip(j as int),
                leg_preview_views(shown) == all,
                pass == (|leg: LegPreviewView| !active_spread_symbols.has(leg.symbol)),
                leg_preview_views(legs@) == before + all.take(j as int).filter(pass),
            decreases count - j,
        {
            let leg = previews.remove(0);
            proof {
                assert(leg == shown[j as int]);
                assert(all[j as int] == leg@);
                filter_step(all, j as int, pass);
                assert(shown.skip(j as int).remove(0) =~= shown.skip(j + 1));
            }
            if !active_spread_symbols.contains(leg.symbol.as_str()) {
                let ghost earlier = leg_preview_views(legs@);
                legs.push(leg);
                assert(leg_preview_views(legs@) =~= earlier.push(leg@));
            }
            assert(leg_preview_views(legs@) =~= before + all.take(j + 1).filter(pass));
            j += 1;
        }
        proof {
            assert(all.take(count as int) =~= all);
            let next = open_orders@.take(i + 1);
            assert(next.drop_last() =~= open_orders@.take(i as int));
            assert(next.last() == open_orders@[i as int]);
            assert(leg_preview_views(legs@) =~= held + unmanaged_order_legs(
                next,
                *active_spread_symbols,
            ));
        }
    }
    assert(open_orders@.take(m as int) =~= open_orders@);
    legs
}

// ---------------------------------------------------------------------------------------------
// Unknown mappings
// ---------------------------------------------------------------------------------------------

/// A spread by its order-list ID and its symbols.
#[derive(Clone, Debug)]
pub struct ExpectedSpread {
    /// Order-list ID.
    pub order_list_id: String,
    /// Leg symbols.
    pub symbols: TextSet,
}

/// The order-list IDs of the spreads that pass a test.
pub open spec fn ids_of(
    spreads: Seq<ExpectedSpread>,
    pass: spec_fn(ExpectedSpread) -> bool,
) -> Seq<Seq<char>> {
    let kept = spreads.filter(pass);
    Seq::new(kept.len(), |i: int| kept[i].order_list_id@)
}

/// The IDs of the spreads whose legs are exactly those of an order.
pub open spec fn exact_ids(order: AlpacaOrder, spreads: Seq<ExpectedSpread>) -> Seq<Seq<char>> {
    ids_of(spreads, |spread: ExpectedSpread| covers(order, spread.symbols))
}

/// The IDs of the spreads that an order touches.
pub open spec fn partial_ids(order: AlpacaOrder, spreads: Seq<ExpectedSpread>) -> Seq<Seq<char>> {
    ids_of(spreads, |spread: ExpectedSpread| touches(order, spread.symbols))
}

/// Why an open order does not map onto one spread alone, and the spreads that it may belong to.
pub open spec fn unknown_mapping(order: AlpacaOrder, spreads: Seq<ExpectedSpread>) -> Option<
    (Seq<char>, Seq<Seq<char>>),
> {
    let multi = opt_text(order.order_class) == Some("mleg"@);
    if names_nothing(order) {
        if multi {
            Some(("missing_leg_symbols"@, Seq::empty()))
        } else {
            None
        }
    } else if exact_ids(order, spreads).len() == 1 {
        None
    } else if exact_ids(order, spreads).len() > 1 {
        Some(("ambiguous_spread_identity"@, exact_ids(order, spreads)))
    } else if partial_ids(order, spreads).len() > 0 {
        Some(("partial_spread_leg_mapping"@, partial_ids(order, spreads)))
    } else if multi {
        Some(("unmanaged_mleg_parent"@, Seq::empty()))
    } else {
        None
    }
}

/// Whether a preview shows why an order is unknown.
pub open spec fn shows_mapping(
    shown: BrokerOrderMappingPreview,
    order: AlpacaOrder,
    spreads: Seq<ExpectedSpread>,
) -> bool {
    &&& unknown_mapping(order, spreads) == Some(
        (shown.reason@, texts(shown.candidate_order_list_ids@)),
    )
    &&& shown.id == order.id
    &&& shown.client_order_id == order.client_order_id
    &&& shown.status == order.status
    &&& shown.order_class == order.order_class
    &&& lists_options(texts(shown.symbols@), order)
}

/// Whether previews show, in order, the orders that are unknown.
pub open spec fn shows_mappings(
    shown: Seq<BrokerOrderMappingPreview>,
    orders: Seq<AlpacaOrder>,
    spreads: Seq<ExpectedSpread>,
) -> bool {
    let kept = orders.filter(|order: AlpacaOrder| unknown_mapping(order, spreads) is Some);
    shown.len() == kept.len() && forall|i: int|
        0 <= i < kept.len() ==> shows_mapping(#[trigger] shown[i], kept[i], spreads)
}

/// Whether the symbols of every spread are in order.
pub open spec fn spreads_wf(spreads: Seq<ExpectedSpread>) -> bool {
    forall|i: int| 0 <= i < spreads.len() ==> (#[trigger] spreads[i]).symbols.wf()
}

fn matching_ids(
    order: &AlpacaOrder,
    symbols: &TextSet,
    spreads: &Vec<ExpectedSpread>,
    exact: bool,
) -> (ids: Vec<String>)
    requires
        symbols.wf(),
        spreads_wf(spreads@),
        forall|x: Seq<char>| #[trigger] symbols.has(x) <==> names_option(*order, x),
    ensures
        texts(ids@) == if exact {
            exact_ids(*order, spreads@)
        } else {
            partial_ids(*order, spreads@)
        },
{
    let mut ids: Vec<String> = Vec::new();
    let n: usize = spreads.len();
    let ghost pass = if exact {
        |spread: ExpectedSpread| covers(*order, spread.symbols)
    } else {
        |spread: ExpectedSpread| touches(*order, spread.symbols)
    };
    proof {
        reveal(Seq::filter);
        assert(texts(ids@) =~= ids_of(spreads@.take(0), pass));
    }
    for i in 0..n
        invariant
            n == spreads@.len(),
            symbols.wf(),
            spreads_wf(spreads@),
            forall|x: Seq<char>| #[trigger] symbols.has(x) <==> names_option(*order, x),
            exact ==> pass == (|spread: ExpectedSpread| covers(*order, spread.symbols)),
            !exact ==> pass == (|spread: ExpectedSpread| touches(*order, spread.symbols)),
            texts(ids@) == ids_of(spreads@.take(i as int), pass),
    {
        let ghost before = ids@;
        proof {
            assert(spreads@[i as int].symbols.wf());
            filter_step(spreads@, i as int, pass);
        }
        let passes: bool = if exact {
            set_covers(symbols, &spreads[i].symbols, order)
        } else {
            set_touches(symbols, &spreads[i].symbols, order)
        };
        if passes {
            ids.push(spreads[i].order_list_id.clone());
        }
        proof {
            assert(passes == pass(spreads@[i as int]));
            let kept = spreads@.take(i as int).filter(pass);
            assert(texts(before).len() == kept.len());
            assert forall|k: int| 0 <= k < kept.len() implies before[k]@
                == kept[k].order_list_id@ by {
                assert(texts(before)[k] == ids_of(spreads@.take(i as int), pass)[k]);
            }
            assert(texts(ids@) =~= ids_of(spreads@.take(i + 1), pass));
        }
    }
    assert(spreads@.take(n as int) =~= spreads@);
    ids
}

fn mapping_preview(
    order: &AlpacaOrder,
    symbols: &TextSet,
    reason: &'static str,
    candidate_order_list_ids: Vec<String>,
) -> (shown: BrokerOrderMappingPreview)
    requires
        symbols.wf(),
        forall|x: Seq<char>| #[trigger] symbols.has(x) <==> names_option(*order, x),
    ensures
        shown.reason == reason,
        shown.candidate_order_list_ids == candidate_order_list_ids,
        shown.id == order.id,
        shown.client_order_id == order.client_order_id,
        shown.status == order.status,
        shown.order_class == order.order_class,
        lists_options(texts(shown.symbols@), *order),
{
    BrokerOrderMappingPreview {
        reason,
        id: copy_opt(&order.id),
        client_order_id: copy_opt(&order.client_order_id),
        status: copy_opt(&order.status),
        order_class: copy_opt(&order.order_class),
        symbols: symbols_as_texts(symbols, order),
        candidate_order_list_ids,
    }
}

/// Returns why an open order does not map onto one spread alone.
pub fn broker_order_mapping_preview(order: &AlpacaOrder, spreads: &Vec<ExpectedSpread>) -> (shown: Option<
    BrokerOrderMappingPreview,
>)
    requires
        spreads_wf(spreads@),
    ensures
        match shown {
            Some(found) => shows_mapping(found, *order, spreads@),
            None => unknown_mapping(*order, spreads@) is None,
        },
{
    let symbols = order_symbol_set(order);
    let multi: bool = is_text(&order.order_class, "mleg");
    if symbols.is_empty() {
        proof {
            assert forall|x: Seq<char>| !#[trigger] names_option(*order, x) by {
                assert(symbols.has(x) <==> names_option(*order, x));
            }
        }
        if multi {
            let none: Vec<String> = Vec::new();
            assert(texts(none@) =~= Seq::<Seq<char>>::empty());
            return Some(mapping_preview(order, &symbols, "missing_leg_symbols", none));
        }
        return None;
    }
    proof {
        assert(symbols.has(symbols@[0]));
        assert(names_option(*order, symbols@[0]));
    }
    let exact = matching_ids(order, &symbols, spreads, true);
    assert(texts(exact@).len() == exact@.len());
    if exact.len() == 1 {
        return None;
    }
    if exact.len() > 1 {
        return Some(mapping_preview(order, &symbols, "ambiguous_spread_identity", exact));
    }
    let partial = matching_ids(order, &symbols, spreads, false);
    assert(texts(partial@).len() == partial@.len());
    if partial.len() > 0 {
        return Some(mapping_preview(order, &symbols, "partial_spread_leg_mapping", partial));
    }
    if multi {
        let none: Vec<String> = Vec::new();
        assert(texts(none@) =~= Seq::<Seq<char>>::empty());
        return Some(mapping_preview(order, &symbols, "unmanaged_mleg_parent", none));
    }
    None
}

/// Returns the open orders that map onto no spread, or onto none alone.
pub fn unknown_parent_leg_mappings(
    open_orders: &Vec<AlpacaOrder>,
    spreads: &Vec<ExpectedSpread>,
) -> (shown: Vec<BrokerOrderMappingPreview>)
    requires
        spreads_wf(spreads@),
    ensures
        shows_mappings(shown@, open_orders@, spreads@),
{
    let mut shown: Vec<BrokerOrderMappingPreview> = Vec::new();
    let n: usize = open_orders.len();
    let ghost pass = |order: AlpacaOrder| unknown_mapping(order, spreads@) is Some;
    proof {
        reveal(Seq::filter);
        assert(open_orders@.take(0).filter(pass).len() == 0);
    }
    for i in 0..n
        invariant
            n == open_orders@.len(),
            spreads_wf(spreads@),
            pass == (|order: AlpacaOrder| unknown_mapping(order, spreads@) is Some),
            shown@.len() == open_orders@.take(i as int).filter(pass).len(),
            forall|k: int|
                0 <= k < shown@.len() ==> shows_mapping(
                    #[trigger] shown@[k],
                    open_orders@.take(i as int).filter(pass)[k],
                    spreads@,
                ),
    {
        proof {
            filter_step(open_orders@, i as int, pass);
        }
        match broker_order_mapping_preview(&open_orders[i], spreads) {
            Some(preview) => {
                shown.push(preview);
            },
            None => {},
        }
    }
    assert(open_orders@.take(n as int) =~= open_orders@);
    shown
}

// ---------------------------------------------------------------------------------------------
// State spreads
// ---------------------------------------------------------------------------------------------

/// How much of a spread is matched.
pub open spec fn match_label(matched: int, expected: int) -> Seq<char> {
    if matched == 0 {
        "missing"@
    } else if matched == expected {
        "matched"@
    } else {
        "partial"@
    }
}

/// Returns how much of a spread is matched.
pub fn symbol_set_status(matched: usize, expected: usize) -> (label: &'static str)
    ensures
        label@ == match_label(matched as int, expected as int),
{
    if matched == 0 {
        "missing"
    } else if matched == expected {
        "matched"
    } else {
        "partial"
    }
}

/// The symbols of the broker at large.
#[derive(Clone, Debug)]
pub struct BrokerSymbols {
    /// Symbols of option positions.
    pub positions: TextSet,
    /// Option symbols of open orders.
    pub open_orders: TextSet,
    /// Symbols of recent activities.
    pub activities: TextSet,
}

/// The legs of a spread with a position or an open order.
pub open spec fn represented(expected: TextSet, broker: BrokerSymbols) -> Seq<Seq<char>> {
    expected@.filter(
        |symbol: Seq<char>| broker.positions.has(symbol) || broker.open_orders.has(symbol),
    )
}

/// Whether a leg preview shows a leg.
pub open spec fn shows_leg(
    shown: SpreadLegPreview,
    leg: OptionSpreadLeg,
    broker: BrokerSymbols,
) -> bool {
    &&& shown.symbol == leg.symbol
    &&& shown.instrument_id == leg.instrument_id
    &&& shown.ratio == leg.ratio
    &&& shown.position_present == broker.positions.has(leg.symbol@)
    &&& shown.open_order_present == broker.open_orders.has(leg.symbol@)
    &&& shown.recent_activity_seen == broker.activities.has(leg.symbol@)
}

/// An activity as it is shown.
pub open spec fn activity_shown(activity: AlpacaActivity) -> BrokerActivityRef {
    BrokerActivityRef {
        id: activity.id,
        activity_type: activity.activity_type,
        order_id: activity.order_id,
        symbol: activity.symbol,
        side: activity.side,
        qty: activity.qty,
        price: activity.price,
        transaction_time: activity.transaction_time,
    }
}

/// Whether an activity names a leg of a spread.
pub open spec fn activity_on(activity: AlpacaActivity, expected: TextSet) -> bool {
    match activity.symbol {
        Some(symbol) => expected.has(symbol@),
        None => false,
    }
}

/// The activities on the legs of a spread, as they are shown.
pub open spec fn activities_shown(activities: Seq<AlpacaActivity>, expected: TextSet) -> Seq<
    BrokerActivityRef,
> {
    let kept = activities.filter(|activity: AlpacaActivity| activity_on(activity, expected));
    Seq::new(kept.len(), |i: int| activity_shown(kept[i]))
}

/// Whether a preview shows a spread of the strategy state.
pub open spec fn shows_spread(
    shown: StateSpreadPreview,
    entry: StrategyStateEntry,
    plan: OptionSpreadPlan,
    expected: TextSet,
    broker: BrokerSymbols,
    open_orders: Seq<AlpacaOrder>,
    recent_orders: Seq<AlpacaOrder>,
    activities: Seq<AlpacaActivity>,
) -> bool {
    let held = shared(expected@, broker.positions@);
    let ordered = shared(expected@, broker.open_orders@);
    &&& shown.status@ == match_label(
        represented(expected, broker).len() as int,
        expected@.len() as int,
    )
    &&& shown.trade_date == entry.trade_date
    &&& shown.underlying == entry.underlying
    &&& shown.strategy == entry.strategy
    &&& shown.order_list_id == entry.order_list_id
    &&& shown.close_order_list_id == entry.close_order_list_id
    &&& shown.spread_instrument_id == plan.instrument_id
    &&& shown.spread_symbol == plan.raw_symbol
    &&& shown.legs@.len() == plan.legs@.len()
    &&& forall|i: int|
        0 <= i < plan.legs@.len() ==> shows_leg(#[trigger] shown.legs@[i], plan.legs@[i], broker)
    &&& shown.position_status@ == match_label(held.len() as int, expected@.len() as int)
    &&& shown.open_order_status@ == match_label(ordered.len() as int, expected@.len() as int)
    &&& texts(shown.matched_position_symbols@) == held
    &&& texts(shown.matched_open_order_symbols@) == ordered
    &&& texts(shown.missing_symbols@) == without(expected@, represented(expected, broker))
    &&& shows_orders(shown.open_orders@, open_orders, "open_order"@, expected)
    &&& shows_orders(shown.recent_orders@, recent_orders, "recent_order"@, expected)
    &&& shown.recent_activities@ == activities_shown(activities, expected)
}

fn leg_previews(legs: &Vec<OptionSpreadLeg>, broker: &BrokerSymbols) -> (shown: Vec<
    SpreadLegPreview,
>)
    ensures
        shown@.len() == legs@.len(),
        forall|i: int|
            0 <= i < legs@.len() ==> shows_leg(#[trigger] shown@[i], legs@[i], *broker),
{
    let mut shown: Vec<SpreadLegPreview> = Vec::new();
    for i in 0..legs.len()
        invariant
            shown@.len() == i,
            forall|k: int| 0 <= k < i ==> shows_leg(#[trigger] shown@[k], legs@[k], *broker),
    {
        let leg = &legs[i];
        shown.push(
            SpreadLegPreview {
                symbol: leg.symbol.clone(),
                instrument_id: leg.instrument_id.clone(),
                ratio: leg.ratio,
                position_present: broker.positions.contains(leg.symbol.as_str()),
                open_order_present: broker.open_orders.contains(leg.symbol.as_str()),
                recent_activity_seen: broker.activities.contains(leg.symbol.as_str()),
            },
        );
    }
    shown
}

fn activity_refs(activities: &Vec<AlpacaActivity>, expected: &TextSet) -> (shown: Vec<
    BrokerActivityRef,
>)
    ensures
        shown@ == activities_shown(activities@, *expected),
{
    let mut shown: Vec<BrokerActivityRef> = Vec::new();
    let n: usize = activities.len();
    let ghost pass = |activity: AlpacaActivity| activity_on(activity, *expected);
    proof {
        reveal(Seq::filter);
        assert(shown@ =~= activities_shown(activities@.take(0), *expected));
    }
    for i in 0..n
        invariant
            n == activities@.len(),
            pass == (|activity: AlpacaActivity| activity_on(activity, *expected)),
            shown@ == activities_shown(activities@.take(i as int), *expected),
    {
        let activity = &activities[i];
        proof {
            filter_step(activities@, i as int, pass);
        }
        let on: bool = match &activity.symbol {
            Some(symbol) => expected.contains(symbol.as_str()),
            None => false,
        };
        if on {
            shown.push(
                BrokerActivityRef {
                    id: copy_opt(&activity.id),
                    activity_type: copy_opt(&activity.activity_type),
                    order_id: copy_opt(&activity.order_id),
                    symbol: copy_opt(&activity.symbol),
                    side: copy_opt(&activity.side),
                    qty: copy_opt(&activity.qty),
                    price: copy_opt(&activity.price),
                    transaction_time: copy_opt(&activity.transaction_time),
                },
            );
        }
        assert(shown@ =~= activities_shown(activities@.take(i + 1), *expected));
    }
    assert(activities@.take(n as int) =~= activities@);
    shown
}

fn represented_symbols(expected: &TextSet, broker: &BrokerSymbols) -> (found: TextSet)
    requires
        expected.wf(),
    ensures
        found.wf(),
        found@ == represented(*expected, *broker),
{
    let mut found = TextSet::new();
    let items = expected.to_texts();
    let n: usize = items.len();
    let ghost pass = |symbol: Seq<char>|
        broker.positions.has(symbol) || broker.open_orders.has(symbol);
    assert(texts(items@).len() == n);
    for i in 0..n
        invariant
            n == items@.len(),
            texts(items@) == expected@,
            found.wf(),
            forall|x: Seq<char>|
                #[trigger] found.has(x) <==> expected@.take(i as int).contains(x) && (
                broker.positions.has(x) || broker.open_orders.has(x)),
    {
        let ghost before = found;
        let symbol = items[i].as_str();
        if broker.positions.contains(symbol) || broker.open_orders.contains(symbol) {
            found.insert(items[i].clone());
        }
        proof {
            assert(expected@[i as int] == items@[i as int]@);
            assert forall|x: Seq<char>|
                #[trigger] found.has(x) <==> expected@.take(i + 1).contains(x) && (
                broker.positions.has(x) || broker.open_orders.has(x)) by {
                crate::text_set::lemma_take_contains(expected@, i as int, x);
                assert(before.has(x) <==> expected@.take(i as int).contains(x) && (
                broker.positions.has(x) || broker.open_orders.has(x)));
            }
        }
    }
    proof {
        assert(expected@.take(n as int) =~= expected@);
        crate::text_set::filter_keeps_ascending(expected@, pass);
        assert forall|x: Seq<char>| found@.contains(x) <==> expected@.filter(pass).contains(x) by {
            assert(found.has(x) <==> expected@.contains(x) && (broker.positions.has(x)
                || broker.open_orders.has(x)));
        }
        crate::text_set::ascending_is_canonical(found@, expected@.filter(pass));
        assert(represented(*expected, *broker) =~= expected@.filter(pass));
    }
    found
}

/// Shows what the broker holds and works on of a spread.
pub fn build_state_spread_preview(
    entry: &StrategyStateEntry,
    plan: &OptionSpreadPlan,
    expected_symbols: &TextSet,
    broker: &BrokerSymbols,
    open_orders: &Vec<AlpacaOrder>,
    recent_orders: &Vec<AlpacaOrder>,
    activities: &Vec<AlpacaActivity>,
) -> (shown: StateSpreadPreview)
    requires
        expected_symbols.wf(),
    ensures
        shows_spread(
            shown,
            *entry,
            *plan,
            *expected_symbols,
            *broker,
            open_orders@,
            recent_orders@,
            activities@,
        ),
{
    let matched_position_symbols = expected_symbols.intersection(&broker.positions);
    let matched_open_order_symbols = expected_symbols.intersection(&broker.open_orders);
    let found = represented_symbols(expected_symbols, broker);
    let missing_symbols = expected_symbols.difference(&found);
    let expected: usize = expected_symbols.len();
    assert(texts(matched_position_symbols@).len() == matched_position_symbols@.len());
    assert(texts(matched_open_order_symbols@).len() == matched_open_order_symbols@.len());
    StateSpreadPreview {
        status: symbol_set_status(found.len(), expected),
        trade_date: entry.trade_date.clone(),
        underlying: entry.underlying.clone(),
        strategy: entry.strategy.clone(),
        order_list_id: entry.order_list_id.clone(),
        close_order_list_id: copy_opt(&entry.close_order_list_id),
        spread_instrument_id: plan.instrument_id.clone(),
        spread_symbol: plan.raw_symbol.clone(),
        legs: leg_previews(&plan.legs, broker),
        position_status: symbol_set_status(matched_position_symbols.len(), expected),
        open_order_status: symbol_set_status(matched_open_order_symbols.len(), expected),
        matched_position_symbols,
        matched_open_order_symbols,
        missing_symbols,
        open_orders: matching_order_refs(open_orders, expected_symbols, "open_order"),
        recent_orders: matching_order_refs(recent_orders, expected_symbols, "recent_order"),
        recent_activities: activity_refs(activities, expected_symbols),
    }
}

// ---------------------------------------------------------------------------------------------
// The whole preview
// ---------------------------------------------------------------------------------------------

/// Whether an entry is shown: it is active and has a spread.
pub open spec fn is_shown(state: StrategyState, plans: Seq<Option<OptionSpreadPlan>>, i: int) -> bool {
    state.entries@[i].active() && plans[i] is Some
}

/// The positions of the first `n` entries that are shown.
pub open spec fn shown_positions(
    state: StrategyState,
    plans: Seq<Option<OptionSpreadPlan>>,
    n: nat,
) -> Seq<int>
    decreases n,
{
    if n == 0 {
        Seq::empty()
    } else {
        let earlier = shown_positions(state, plans, (n - 1) as nat);
        if is_shown(state, plans, n - 1) {
            earlier.push(n - 1)
        } else {
            earlier
        }
    }
}

/// Whether a symbol is a leg of a spread.
pub open spec fn plan_has_leg(plan: OptionSpreadPlan, symbol: Seq<char>) -> bool {
    exists|i: int| 0 <= i < plan.legs@.len() && (#[trigger] plan.legs@[i]).symbol@ == symbol
}

fn plan_symbols(plan: &OptionSpreadPlan) -> (symbols: TextSet)
    ensures
        symbols.wf(),
        forall|x: Seq<char>| #[trigger] symbols.has(x) <==> plan_has_leg(*plan, x),
{
    let mut symbols = TextSet::new();
    let n: usize = plan.legs.len();
    for i in 0..n
        invariant
            n == plan.legs@.len(),
            symbols.wf(),
            forall|x: Seq<char>|
                #[trigger] symbols.has(x) <==> (exists|k: int|
                    0 <= k < i && (#[trigger] plan.legs@[k]).symbol@ == x),
    {
        let ghost before = symbols;
        symbols.insert(plan.legs[i].symbol.clone());
        proof {
            assert forall|x: Seq<char>|
                #[trigger] symbols.has(x) <==> (exists|k: int|
                    0 <= k < i + 1 && (#[trigger] plan.legs@[k]).symbol@ == x) by {
                assert(before.has(x) <==> (exists|k: int|
                    0 <= k < i && (#[trigger] plan.legs@[k]).symbol@ == x));
                if plan.legs@[i as int].symbol@ == x {
                    assert(plan.legs@[i as int].symbol@ == x);
                }
            }
        }
    }
    symbols
}

/// Whether spreads are those of the shown entries, in order.
pub open spec fn are_expected(
    spreads: Seq<ExpectedSpread>,
    state: StrategyState,
    plans: Seq<Option<OptionSpreadPlan>>,
    positions: Seq<int>,
) -> bool {
    &&& spreads_wf(spreads)
    &&& spreads.len() == positions.len()
    &&& forall|k: int|
        0 <= k < positions.len() ==> {
            &&& (#[trigger] spreads[k]).order_list_id@ == state.entries@[positions[k]].order_list_id@
            &&& forall|x: Seq<char>|
                #[trigger] spreads[k].symbols.has(x) <==> plan_has_leg(plans[positions[k]]->0, x)
        }
}

/// Whether a symbol belongs to one of some spreads.
pub open spec fn in_spreads(spreads: Seq<ExpectedSpread>, symbol: Seq<char>) -> bool {
    exists|k: int| 0 <= k < spreads.len() && (#[trigger] spreads[k]).symbols.has(symbol)
}

/// Whether the spreads of the state are shown, one for each shown entry.
pub open spec fn shows_spreads(
    shown: Seq<StateSpreadPreview>,
    state: StrategyState,
    plans: Seq<Option<OptionSpreadPlan>>,
    positions: Seq<int>,
    spreads: Seq<ExpectedSpread>,
    broker: BrokerSymbols,
    open_orders: Seq<AlpacaOrder>,
    recent_orders: Seq<AlpacaOrder>,
    activities: Seq<AlpacaActivity>,
) -> bool {
    shown.len() == positions.len() && forall|k: int|
        0 <= k < positions.len() ==> shows_spread(
            #[trigger] shown[k],
            state.entries@[positions[k]],
            plans[positions[k]]->0,
            spreads[k].symbols,
            broker,
            open_orders,
            recent_orders,
            activities,
        )
}

/// The spreads with a status.
pub open spec fn with_status(shown: Seq<StateSpreadPreview>, status: Seq<char>) -> Seq<
    StateSpreadPreview,
> {
    shown.filter(|spread: StateSpreadPreview| spread.status@ == status)
}

/// Whether a preview shows everything.
pub open spec fn shows_everything(
    preview: SpreadReconciliationPreview,
    state: StrategyState,
    plans: Seq<Option<OptionSpreadPlan>>,
    positions: Seq<AlpacaPosition>,
    open_orders: Seq<AlpacaOrder>,
    recent_orders: Seq<AlpacaOrder>,
    activities: Seq<AlpacaActivity>,
    spreads: Seq<ExpectedSpread>,
    managed: TextSet,
    broker: BrokerSymbols,
) -> bool {
    let at = shown_positions(state, plans, state.entries@.len());
    &&& are_expected(spreads, state, plans, at)
    &&& managed.wf() && broker.positions.wf() && broker.open_orders.wf() && broker.activities.wf()
    &&& forall|x: Seq<char>| #[trigger] managed.has(x) <==> in_spreads(spreads, x)
    &&& forall|x: Seq<char>| #[trigger] broker.positions.has(x) <==> positions_hold(positions, x)
    &&& forall|x: Seq<char>| #[trigger] broker.open_orders.has(x) <==> orders_name_option(open_orders, x)
    &&& forall|x: Seq<char>| #[trigger] broker.activities.has(x) <==> activities_name(activities, x)
    &&& shows_spreads(
        preview.state_spreads@,
        state,
        plans,
        at,
        spreads,
        broker,
        open_orders,
        recent_orders,
        activities,
    )
    &&& leg_preview_views(preview.unmanaged_extra_legs@) == unmanaged_positions(positions, managed)
        + unmanaged_order_legs(open_orders, managed)
    &&& shows_mappings(preview.unknown_parent_leg_mappings@, open_orders, spreads)
}

/// Whether the numbers of a preview are right.
pub open spec fn sums_up(
    preview: SpreadReconciliationPreview,
    positions: Seq<AlpacaPosition>,
    open_orders: Seq<AlpacaOrder>,
) -> bool {
    let summary = preview.summary;
    let shown = preview.state_spreads@;
    &&& summary.state_spreads == shown.len()
    &&& summary.matched_spreads == with_status(shown, "matched"@).len()
    &&& summary.partial_spreads == with_status(shown, "partial"@).len()
    &&& summary.missing_spreads == with_status(shown, "missing"@).len()
    &&& summary.broker_mleg_orders == multi_leg_orders(open_orders).len()
    &&& summary.broker_position_legs == option_positions(positions).len()
    &&& summary.unmanaged_extra_legs == preview.unmanaged_extra_legs@.len()
    &&& summary.unknown_parent_leg_mappings == preview.unknown_parent_leg_mappings@.len()
}

/// The multi-leg ones of some orders.
pub open spec fn multi_leg_orders(orders: Seq<AlpacaOrder>) -> Seq<AlpacaOrder> {
    orders.filter(|order: AlpacaOrder| opt_text(order.order_class) == Some("mleg"@))
}

/// The option positions with a symbol.
pub open spec fn option_positions(positions: Seq<AlpacaPosition>) -> Seq<AlpacaPosition> {
    positions.filter(|position: AlpacaPosition| option_position(position) is Some)
}

fn count_status(shown: &Vec<StateSpreadPreview>, status: &str) -> (count: usize)
    ensures
        count == with_status(shown@, status@).len(),
{
    let mut count: usize = 0;
    let n: usize = shown.len();
    for i in 0..n
        invariant
            n == shown@.len(),
            count <= i,
            count == with_status(shown@.take(i as int), status@).len(),
    {
        proof {
            filter_step(
                shown@,
                i as int,
                |spread: StateSpreadPreview| spread.status@ == status@,
            );
        }
        if crate::text::same_text(shown[i].status, status) {
            count += 1;
        }
    }
    assert(shown@.take(n as int) =~= shown@);
    count
}

/// Returns the number of multi-leg orders.
pub fn count_multi_leg_orders(orders: &Vec<AlpacaOrder>) -> (count: usize)
    ensures
        count == multi_leg_orders(orders@).len(),
{
    let mut count: usize = 0;
    let n: usize = orders.len();
    for i in 0..n
        invariant
            n == orders@.len(),
            count <= i,
            count == multi_leg_orders(orders@.take(i as int)).len(),
    {
        proof {
            filter_step(
                orders@,
                i as int,
                |order: AlpacaOrder| opt_text(order.order_class) == Some("mleg"@),
            );
        }
        if is_text(&orders[i].order_class, "mleg") {
            count += 1;
        }
    }
    assert(orders@.take(n as int) =~= orders@);
    count
}

fn count_option_positions(positions: &Vec<AlpacaPosition>) -> (count: usize)
    ensures
        count == option_positions(positions@).len(),
{
    let mut count: usize = 0;
    let n: usize = positions.len();
    for i in 0..n
        invariant
            n == positions@.len(),
            count <= i,
            count == option_positions(positions@.take(i as int)).len(),
    {
        proof {
            filter_step(
                positions@,
                i as int,
                |position: AlpacaPosition| option_position(position) is Some,
            );
        }
        if option_position_symbol(&positions[i]).is_some() {
            count += 1;
        }
    }
    assert(positions@.take(n as int) =~= positions@);
    count
}

/// Previews how broker state maps onto the spreads of the strategy state. `plans` holds the spread of
/// each entry that has one.
pub fn build_spread_reconciliation_preview(
    state: &StrategyState,
    plans: &Vec<Option<OptionSpreadPlan>>,
    positions: &Vec<AlpacaPosition>,
    open_orders: &Vec<AlpacaOrder>,
    recent_orders: &Vec<AlpacaOrder>,
    activities: &Vec<AlpacaActivity>,
) -> (preview: SpreadReconciliationPreview)
    requires
        plans@.len() == state.entries@.len(),
    ensures
        sums_up(preview, positions@, open_orders@),
        exists|spreads: Seq<ExpectedSpread>, managed: TextSet, broker: BrokerSymbols|
            #[trigger] shows_everything(
                preview,
                *state,
                plans@,
                positions@,
                open_orders@,
                recent_orders@,
                activities@,
                spreads,
                managed,
                broker,
            ),
{
    let broker = BrokerSymbols {
        positions: option_position_symbols(positions),
        open_orders: option_order_symbols(open_orders),
        activities: activity_symbols(activities),
    };
    let mut spreads: Vec<ExpectedSpread> = Vec::new();
    let mut managed = TextSet::new();
    let mut state_spreads: Vec<StateSpreadPreview> = Vec::new();
    let n: usize = state.entries.len();
    for i in 0..n
        invariant
            n == state.entries@.len() == plans@.len(),
            are_expected(spreads@, *state, plans@, shown_positions(*state, plans@, i as nat)),
            managed.wf(),
            forall|x: Seq<char>| #[trigger] managed.has(x) <==> in_spreads(spreads@, x),
            shows_spreads(
                state_spreads@,
                *state,
                plans@,
                shown_positions(*state, plans@, i as nat),
                spreads@,
                broker,
                open_orders@,
                recent_orders@,
                activities@,
            ),
    {
        let entry = &state.entries[i];
        let ghost earlier = spreads@;
        let ghost before = managed;
        if entry.is_active() {
            match &plans[i] {
                Some(plan) => {
                    let symbols = plan_symbols(plan);
                    state_spreads.push(
                        build_state_spread_preview(
                            entry,
                            plan,
                            &symbols,
                            &broker,
                            open_orders,
                            recent_orders,
                            activities,
                        ),
                    );
                    managed.extend(&symbols);
                    spreads.push(
                        ExpectedSpread { order_list_id: entry.order_list_id.clone(), symbols },
                    );
                    proof {
                        assert forall|x: Seq<char>|
                            #[trigger] managed.has(x) <==> in_spreads(spreads@, x) by {
                            assert(managed.has(x) <==> before.has(x) || symbols.has(x));
                            assert(before.has(x) <==> in_spreads(earlier, x));
                            if in_spreads(earlier, x) {
                                let k = choose|k: int|
                                    0 <= k < earlier.len() && (#[trigger] earlier[k]).symbols.has(x);
                                assert(spreads@[k].symbols.has(x));
                            }
                            if symbols.has(x) {
                                assert(spreads@[earlier.len() as int].symbols.has(x));
                            }
                            if in_spreads(spreads@, x) {
                                let k = choose|k: int|
                                    0 <= k < spreads@.len() && (
                                    #[trigger] spreads@[k]).symbols.has(x);
                                if k < earlier.len() {
                                    assert(earlier[k].symbols.has(x));
                                }
                            }
                        }
                    }
                },
                None => {},
            }
        }
    }
    let unmanaged_legs = unmanaged_extra_legs(positions, open_orders, &managed);
    let unknown = unknown_parent_leg_mappings(open_orders, &spreads);
    let summary = SpreadReconciliationSummary {
        state_spreads: state_spreads.len(),
        matched_spreads: count_status(&state_spreads, "matched"),
        partial_spreads: count_status(&state_spreads, "partial"),
        missing_spreads: count_status(&state_spreads, "missing"),
        broker_mleg_orders: count_multi_leg_orders(open_orders),
        broker_position_legs: count_option_positions(positions),
        unmanaged_extra_legs: unmanaged_legs.len(),
        unknown_parent_leg_mappings: unknown.len(),
    };
    let preview = SpreadReconciliationPreview {
        summary,
        state_spreads,
        unmanaged_extra_legs: unmanaged_legs,
        unknown_parent_leg_mappings: unknown,
    };
    proof {
        assert(shows_everything(
            preview,
            *state,
            plans@,
            positions@,
            open_orders@,
            recent_orders@,
            activities@,
            spreads@,
            managed,
            broker,
        ));
    }
    preview
}

/// Every spread is matched, partial or missing, and only one of these.
pub proof fn statuses_partition_the_spreads(matched: int, expected: int)
    requires
        0 <= matched <= expected,
    ensures
        match_label(matched, expected) == "missing"@ || match_label(matched, expected) == "matched"@
            || match_label(matched, expected) == "partial"@,
        match_label(matched, expected) == "matched"@ ==> matched == expected,
        match_label(matched, expected) == "missing"@ <==> matched == 0,
{
    reveal_strlit("missing");
    reveal_strlit("matched");
    reveal_strlit("partial");
    assert("missing"@[1] == 'i');
    assert("matched"@[1] == 'a' && "matched"@[0] == 'm');
    assert("partial"@[0] == 'p');
}

} // verus!
