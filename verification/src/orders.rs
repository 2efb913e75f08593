//! Orders that open and close entries.
use vstd::prelude::*;

use crate::amount::Amount;
use crate::entry::EntryPremiumKind;
use crate::entry::SelectedOptionsEntry;
use crate::management::CloseQuote;
use crate::planner::opening_legs;
use crate::planner::AlpacaOptionsPlanSide;
use crate::state::StrategyStateEntry;
use crate::symbol::alpaca_instrument_id;
use crate::symbol::instrument_chars;
use crate::symbol::is_visible;
use crate::text::count_text;
use crate::text::decimal;
use crate::text::opt_text;

verus! {

/// A limit order, good for the day.
#[derive(Clone, Debug)]
pub struct PlannedOrder {
    /// Client order ID.
    pub client_order_id: String,
    /// Order-list ID.
    pub order_list_id: Option<String>,
    /// Instrument ID.
    pub instrument_id: String,
    /// Side.
    pub side: AlpacaOptionsPlanSide,
    /// Contract quantity.
    pub quantity: u64,
    /// Limit price.
    pub limit_price: Amount,
    /// Whether the order may only reduce a position.
    pub reduce_only: bool,
}

/// Why no order can be built.
#[derive(Clone, Copy, Debug, PartialEq, Eq, Structural)]
pub enum OrderErrorKind {
    /// The entry quantity is zero.
    EntryQuantity,
    /// The quantity of a leg is zero.
    LegQuantity,
    /// The limit price of a leg is zero or below.
    LegPrice,
    /// A leg's symbol gives no instrument ID.
    LegSymbol,
    /// The quantity of a spread order is zero.
    SpreadQuantity,
    /// The limit price of a spread order is zero.
    SpreadPrice,
    /// A spread order has other than two legs.
    SpreadLegs,
    /// There is no order to submit.
    EmptyOrderSet,
}

/// An order that cannot be built.
#[derive(Clone, Debug)]
pub struct OrderError {
    /// What is wrong.
    pub kind: OrderErrorKind,
    /// Client order ID, order-list ID or symbol concerned.
    pub subject: String,
    /// Number of legs, for a spread order.
    pub legs: usize,
    /// Whether a spread order was to close.
    pub closing: bool,
}

/// What an order that cannot be built is told by.
pub struct ErrorView {
    /// What is wrong.
    pub kind: OrderErrorKind,
    /// Client order ID, order-list ID or symbol concerned.
    pub subject: Seq<char>,
    /// Number of legs, for a spread order.
    pub legs: usize,
    /// Whether a spread order was to close.
    pub closing: bool,
}

impl View for OrderError {
    type V = ErrorView;

    open spec fn view(&self) -> ErrorView {
        ErrorView {
            kind: self.kind,
            subject: self.subject@,
            legs: self.legs,
            closing: self.closing,
        }
    }
}

/// An error that is not about a spread order.
pub open spec fn plain_error(kind: OrderErrorKind, subject: Seq<char>) -> ErrorView {
    ErrorView { kind, subject, legs: 0, closing: false }
}

impl OrderError {
    /// How the message on a spread order begins.
    pub open spec fn spread_prefix(self) -> Seq<char> {
        if self.closing {
            "spread close order "@
        } else {
            "spread order "@
        }
    }

    fn prefix(&self) -> (text: &'static str)
        ensures
            text@ == self.spread_prefix(),
    {
        if self.closing {
            "spread close order "
        } else {
            "spread order "
        }
    }

    /// The message for operators.
    pub open spec fn message_chars(self) -> Seq<char> {
        match self.kind {
            OrderErrorKind::EntryQuantity => "quantity must be positive"@,
            OrderErrorKind::LegQuantity => "order "@ + self.subject@
                + " quantity must be positive"@,
            OrderErrorKind::LegPrice => "order "@ + self.subject@
                + " limit price must be positive"@,
            OrderErrorKind::LegSymbol => "symbol "@ + self.subject@ + " has no instrument id"@,
            OrderErrorKind::SpreadQuantity => self.spread_prefix() + self.subject@
                + " quantity must be positive"@,
            OrderErrorKind::SpreadPrice => self.spread_prefix() + self.subject@
                + " signed limit price must be non-zero"@,
            OrderErrorKind::SpreadLegs => self.spread_prefix() + self.subject@
                + " only supports two-leg vertical drafts, got "@ + decimal(self.legs as nat)
                + " legs"@,
            OrderErrorKind::EmptyOrderSet => "cannot submit empty order set"@,
        }
    }

    /// Returns the message for operators.
    pub fn message(&self) -> (text: String)
        ensures
            text@ == self.message_chars(),
    {
        match self.kind {
            OrderErrorKind::EntryQuantity => "quantity must be positive".to_owned(),
            OrderErrorKind::LegQuantity => "order ".to_owned().concat(
                self.subject.as_str(),
            ).concat(" quantity must be positive"),
            OrderErrorKind::LegPrice => "order ".to_owned().concat(self.subject.as_str()).concat(
                " limit price must be positive",
            ),
            OrderErrorKind::LegSymbol => "symbol ".to_owned().concat(self.subject.as_str()).concat(
                " has no instrument id",
            ),
            OrderErrorKind::SpreadQuantity => self.prefix().to_owned().concat(
                self.subject.as_str(),
            ).concat(" quantity must be positive"),
            OrderErrorKind::SpreadPrice => self.prefix().to_owned().concat(
                self.subject.as_str(),
            ).concat(" signed limit price must be non-zero"),
            OrderErrorKind::SpreadLegs => self.prefix().to_owned().concat(
                self.subject.as_str(),
            ).concat(" only supports two-leg vertical drafts, got ").concat(
                count_text(self.legs).as_str(),
            ).concat(" legs"),
            OrderErrorKind::EmptyOrderSet => "cannot submit empty order set".to_owned(),
        }
    }
}

/// One leg to trade. A leg without a label takes the order-list ID as its client order ID.
#[derive(Clone, Debug)]
pub struct OrderLeg {
    /// Label that the client order ID ends with.
    pub label: Option<&'static str>,
    /// Option symbol.
    pub symbol: String,
    /// Side.
    pub side: AlpacaOptionsPlanSide,
    /// Limit price.
    pub price: Amount,
}

/// What is traded on one leg.
pub struct LegView {
    /// Label that the client order ID ends with.
    pub label: Option<Seq<char>>,
    /// Option symbol.
    pub symbol: Seq<char>,
    /// Side.
    pub side: AlpacaOptionsPlanSide,
    /// Limit price.
    pub price: Amount,
}

impl View for OrderLeg {
    type V = LegView;

    open spec fn view(&self) -> LegView {
        LegView {
            label: crate::text::opt_slice(self.label),
            symbol: self.symbol@,
            side: self.side,
            price: self.price,
        }
    }
}

/// What is traded on some legs.
pub open spec fn legs_view(legs: Seq<OrderLeg>) -> Seq<LegView> {
    Seq::new(legs.len(), |i: int| legs[i]@)
}

/// The client order ID of a leg.
pub open spec fn leg_id(order_list_id: Seq<char>, label: Option<Seq<char>>) -> Seq<char> {
    match label {
        Some(text) => order_list_id + "-"@ + text,
        None => order_list_id,
    }
}

/// Why a leg cannot be ordered: its quantity, then its price, then its symbol.
pub open spec fn leg_failure(leg: LegView, order_list_id: Seq<char>, quantity: u64) -> Option<
    ErrorView,
> {
    if quantity == 0 {
        Some(plain_error(OrderErrorKind::LegQuantity, leg_id(order_list_id, leg.label)))
    } else if leg.price.zero_or_below() {
        Some(plain_error(OrderErrorKind::LegPrice, leg_id(order_list_id, leg.label)))
    } else if !is_visible(leg.symbol) {
        Some(plain_error(OrderErrorKind::LegSymbol, leg.symbol))
    } else {
        None
    }
}

/// Why some legs cannot be ordered: the failure of the first leg that cannot.
pub open spec fn first_leg_failure(
    legs: Seq<LegView>,
    order_list_id: Seq<char>,
    quantity: u64,
) -> Option<ErrorView>
    decreases legs.len(),
{
    if legs.len() == 0 {
        None
    } else {
        match leg_failure(legs[0], order_list_id, quantity) {
            Some(error) => Some(error),
            None => first_leg_failure(legs.drop_first(), order_list_id, quantity),
        }
    }
}

/// The first failure of some legs is that of a leg which comes after none that fails.
proof fn first_leg_failure_at(
    legs: Seq<LegView>,
    order_list_id: Seq<char>,
    quantity: u64,
    at: int,
)
    requires
        0 <= at <= legs.len(),
        forall|k: int|
            0 <= k < at ==> leg_failure(#[trigger] legs[k], order_list_id, quantity) is None,
        at < legs.len() ==> leg_failure(legs[at], order_list_id, quantity) is Some,
    ensures
        first_leg_failure(legs, order_list_id, quantity) == if at < legs.len() {
            leg_failure(legs[at], order_list_id, quantity)
        } else {
            None
        },
    decreases legs.len(),
{
    if at > 0 {
        let rest = legs.drop_first();
        assert(leg_failure(legs[0], order_list_id, quantity) is None);
        assert forall|k: int| 0 <= k < at - 1 implies leg_failure(
            #[trigger] rest[k],
            order_list_id,
            quantity,
        ) is None by {
            assert(rest[k] == legs[k + 1]);
        }
        first_leg_failure_at(rest, order_list_id, quantity, at - 1);
    }
}

/// Whether an order trades a leg.
pub open spec fn trades(
    order: PlannedOrder,
    leg: LegView,
    order_list_id: Seq<char>,
    quantity: u64,
    reduce_only: bool,
) -> bool {
    &&& order.client_order_id@ == leg_id(order_list_id, leg.label)
    &&& order.order_list_id is None
    &&& order.instrument_id@ == instrument_chars(leg.symbol)
    &&& order.side == leg.side
    &&& order.quantity == quantity
    &&& order.limit_price == leg.price
    &&& order.reduce_only == reduce_only
}

/// Whether building orders for legs came out as it must: one order per leg when every leg can be
/// ordered, else the failure of the first leg that cannot.
pub open spec fn orders_built(
    result: Result<Vec<PlannedOrder>, OrderError>,
    legs: Seq<LegView>,
    order_list_id: Seq<char>,
    quantity: u64,
    reduce_only: bool,
) -> bool {
    match result {
        Ok(orders) => {
            &&& orders@.len() == legs.len()
            &&& forall|i: int|
                0 <= i < legs.len() ==> {
                    &&& leg_failure(#[trigger] legs[i], order_list_id, quantity) is None
                    &&& trades(orders@[i], legs[i], order_list_id, quantity, reduce_only)
                }
        },
        Err(error) => first_leg_failure(legs, order_list_id, quantity) == Some(error@),
    }
}

/// Returns the client order ID of a leg.
pub fn labeled_client_order_id(order_list_id: &str, label: Option<&'static str>) -> (id: String)
    ensures
        id@ == leg_id(order_list_id@, crate::text::opt_slice(label)),
{
    match label {
        Some(text) => order_list_id.to_owned().concat("-").concat(text),
        None => order_list_id.to_owned(),
    }
}

/// Builds the limit order of one leg.
pub fn limit_option_order(
    leg: &OrderLeg,
    order_list_id: &str,
    quantity: u64,
    reduce_only: bool,
) -> (order: Result<PlannedOrder, OrderError>)
    ensures
        match order {
            Ok(built) => leg_failure(leg@, order_list_id@, quantity) is None && trades(
                built,
                leg@,
                order_list_id@,
                quantity,
                reduce_only,
            ),
            Err(error) => leg_failure(leg@, order_list_id@, quantity) == Some(error@),
        },
{
    let client_order_id = labeled_client_order_id(order_list_id, leg.label);
    if quantity == 0 {
        return Err(
            OrderError { kind: OrderErrorKind::LegQuantity, subject: client_order_id, legs: 0, closing: false },
        );
    }
    if leg.price.is_zero_or_below() {
        return Err(
            OrderError { kind: OrderErrorKind::LegPrice, subject: client_order_id, legs: 0, closing: false },
        );
    }
    match alpaca_instrument_id(leg.symbol.as_str()) {
        Some(instrument_id) => Ok(
            PlannedOrder {
                client_order_id,
                order_list_id: None,
                instrument_id,
                side: leg.side,
                quantity,
                limit_price: leg.price,
                reduce_only,
            },
        ),
        None => Err(
            OrderError {
                kind: OrderErrorKind::LegSymbol,
                subject: leg.symbol.clone(),
                legs: 0,
                closing: false,
            },
        ),
    }
}

fn build_leg_orders(
    legs: &Vec<OrderLeg>,
    order_list_id: &str,
    quantity: u64,
    reduce_only: bool,
) -> (result: Result<Vec<PlannedOrder>, OrderError>)
    ensures
        orders_built(result, legs_view(legs@), order_list_id@, quantity, reduce_only),
{
    let mut orders: Vec<PlannedOrder> = Vec::new();
    let ghost views = legs_view(legs@);
    for i in 0..legs.len()
        invariant
            views == legs_view(legs@),
            orders@.len() == i,
            forall|k: int|
                0 <= k < i ==> {
                    &&& leg_failure(#[trigger] views[k], order_list_id@, quantity) is None
                    &&& trades(orders@[k], views[k], order_list_id@, quantity, reduce_only)
                },
    {
        match limit_option_order(&legs[i], order_list_id, quantity, reduce_only) {
            Ok(order) => {
                assert(legs@[i as int]@ == views[i as int]);
                orders.push(order);
            },
            Err(error) => {
                proof {
                    first_leg_failure_at(views, order_list_id@, quantity, i as int);
                }
                return Err(error);
            },
        }
    }
    Ok(orders)
}

// ---------------------------------------------------------------------------------------------
// Opening orders
// ---------------------------------------------------------------------------------------------

/// A leg to sell at its bid.
pub open spec fn sell_leg(label: Option<Seq<char>>, symbol: Seq<char>, price: Amount) -> LegView {
    LegView { label, symbol, side: AlpacaOptionsPlanSide::Sell, price }
}

/// A leg to buy at its ask.
pub open spec fn buy_leg(label: Option<Seq<char>>, symbol: Seq<char>, price: Amount) -> LegView {
    LegView { label, symbol, side: AlpacaOptionsPlanSide::Buy, price }
}

/// The legs that open an entry: short legs are sold at their bid, long legs bought at their ask.
pub open spec fn entry_legs(entry: SelectedOptionsEntry) -> Seq<LegView> {
    match entry {
        SelectedOptionsEntry::Credit(entry) => seq![
            sell_leg(Some("short"@), entry.candidate.short.symbol@, entry.candidate.short.bid),
            buy_leg(Some("long"@), entry.candidate.long.symbol@, entry.candidate.long.ask),
        ],
        SelectedOptionsEntry::IronCondor(entry) => seq![
            sell_leg(
                Some("short-put"@),
                entry.candidate.put.short.symbol@,
                entry.candidate.put.short.bid,
            ),
            buy_leg(
                Some("long-put"@),
                entry.candidate.put.long.symbol@,
                entry.candidate.put.long.ask,
            ),
            sell_leg(
                Some("short-call"@),
                entry.candidate.call.short.symbol@,
                entry.candidate.call.short.bid,
            ),
            buy_leg(
                Some("long-call"@),
                entry.candidate.call.long.symbol@,
                entry.candidate.call.long.ask,
            ),
        ],
        SelectedOptionsEntry::Debit(entry) => seq![
            buy_leg(Some("long"@), entry.candidate.long.symbol@, entry.candidate.long.ask),
            sell_leg(Some("short"@), entry.candidate.short.symbol@, entry.candidate.short.bid),
        ],
        SelectedOptionsEntry::NakedOption(entry) => seq![
            sell_leg(None, entry.candidate.short.symbol@, entry.candidate.short.bid),
        ],
    }
}

fn leg(
    label: Option<&'static str>,
    symbol: &String,
    side: AlpacaOptionsPlanSide,
    price: Amount,
) -> (made: OrderLeg)
    ensures
        made@ == (LegView {
            label: crate::text::opt_slice(label),
            symbol: symbol@,
            side,
            price,
        }),
{
    OrderLeg { label, symbol: symbol.clone(), side, price }
}

/// Returns the legs that open an entry.
pub fn selected_entry_legs(entry: &SelectedOptionsEntry) -> (legs: Vec<OrderLeg>)
    ensures
        legs_view(legs@) == entry_legs(*entry),
{
    let legs = match entry {
        SelectedOptionsEntry::Credit(entry) => vec![
            leg(
                Some("short"),
                &entry.candidate.short.symbol,
                AlpacaOptionsPlanSide::Sell,
                entry.candidate.short.bid,
            ),
            leg(
                Some("long"),
                &entry.candidate.long.symbol,
                AlpacaOptionsPlanSide::Buy,
                entry.candidate.long.ask,
            ),
        ],
        SelectedOptionsEntry::IronCondor(entry) => vec![
            leg(
                Some("short-put"),
                &entry.candidate.put.short.symbol,
                AlpacaOptionsPlanSide::Sell,
                entry.candidate.put.short.bid,
            ),
            leg(
                Some("long-put"),
                &entry.candidate.put.long.symbol,
                AlpacaOptionsPlanSide::Buy,
                entry.candidate.put.long.ask,
            ),
            leg(
                Some("short-call"),
                &entry.candidate.call.short.symbol,
                AlpacaOptionsPlanSide::Sell,
                entry.candidate.call.short.bid,
            ),
            leg(
                Some("long-call"),
                &entry.candidate.call.long.symbol,
                AlpacaOptionsPlanSide::Buy,
                entry.candidate.call.long.ask,
            ),
        ],
        SelectedOptionsEntry::Debit(entry) => vec![
            leg(
                Some("long"),
                &entry.candidate.long.symbol,
                AlpacaOptionsPlanSide::Buy,
                entry.candidate.long.ask,
            ),
            leg(
                Some("short"),
                &entry.candidate.short.symbol,
                AlpacaOptionsPlanSide::Sell,
                entry.candidate.short.bid,
            ),
        ],
        SelectedOptionsEntry::NakedOption(entry) => vec![
            leg(
                None,
                &entry.candidate.short.symbol,
                AlpacaOptionsPlanSide::Sell,
                entry.candidate.short.bid,
            ),
        ],
    };
    assert(legs_view(legs@) =~= entry_legs(*entry));
    legs
}

/// Why the orders of an entry cannot be built: its quantity, then the first leg that cannot be
/// ordered.
pub open spec fn entry_failure(
    entry: SelectedOptionsEntry,
    order_list_id: Seq<char>,
    quantity: u64,
) -> Option<ErrorView> {
    if quantity == 0 {
        Some(plain_error(OrderErrorKind::EntryQuantity, Seq::empty()))
    } else {
        first_leg_failure(entry_legs(entry), order_list_id, quantity)
    }
}

/// Builds the orders that open a selected entry.
///
/// # Errors
///
/// Returns an error when quantity, price, or Alpaca option symbol inputs are invalid.
pub fn build_selected_entry_orders(
    entry: &SelectedOptionsEntry,
    order_list_id: &str,
    quantity: u64,
) -> (result: Result<Vec<PlannedOrder>, OrderError>)
    ensures
        match result {
            Ok(orders) => entry_failure(*entry, order_list_id@, quantity) is None && orders_built(
                Ok(orders),
                entry_legs(*entry),
                order_list_id@,
                quantity,
                false,
            ),
            Err(error) => entry_failure(*entry, order_list_id@, quantity) == Some(error@),
        },
{
    if quantity == 0 {
        let error = OrderError {
            kind: OrderErrorKind::EntryQuantity,
            subject: String::new(),
            legs: 0,
            closing: false,
        };
        assert(error.subject@ =~= Seq::<char>::empty());
        return Err(error);
    }
    let result = build_leg_orders(&selected_entry_legs(entry), order_list_id, quantity, false);
    proof {
        if result is Ok {
            first_leg_failure_at(
                entry_legs(*entry),
                order_list_id@,
                quantity,
                entry_legs(*entry).len() as int,
            );
        }
    }
    result
}

/// The opening orders trade the planned legs: the same symbols on the same sides.
pub proof fn entry_orders_follow_the_plan(entry: SelectedOptionsEntry)
    ensures
        entry_legs(entry).len() == opening_legs(entry).len(),
        forall|i: int|
            0 <= i < opening_legs(entry).len() ==> ((#[trigger] entry_legs(entry)[i]).symbol, entry_legs(
                entry,
            )[i].side) == opening_legs(entry)[i],
{
}

// ---------------------------------------------------------------------------------------------
// Closing orders
// ---------------------------------------------------------------------------------------------

/// The call legs that close an entry.
pub open spec fn call_close_legs(entry: StrategyStateEntry, quote: CloseQuote) -> Seq<LegView> {
    match (
        entry.short_call_symbol,
        entry.long_call_symbol,
        quote.short_call_ask,
        quote.long_call_bid,
    ) {
        (Some(short), Some(long), Some(ask), Some(bid)) => seq![
            buy_leg(Some("short-call-close"@), short@, ask),
            sell_leg(Some("long-call-close"@), long@, bid),
        ],
        _ => Seq::empty(),
    }
}

/// The legs that close an entry: short legs are bought back, long legs sold.
pub open spec fn close_legs(entry: StrategyStateEntry, quote: CloseQuote) -> Seq<LegView> {
    let label = if entry.naked() {
        None
    } else {
        Some("short-close"@)
    };
    let long = if entry.long_symbol@.len() == 0 {
        Seq::empty()
    } else {
        seq![sell_leg(Some("long-close"@), entry.long_symbol@, quote.long_bid)]
    };
    seq![buy_leg(label, entry.short_symbol@, quote.short_ask)] + long + call_close_legs(
        entry,
        quote,
    )
}

/// Returns the legs that close an entry.
pub fn close_entry_legs(entry: &StrategyStateEntry, quote: &CloseQuote) -> (legs: Vec<OrderLeg>)
    ensures
        legs_view(legs@) == close_legs(*entry, *quote),
{
    let mut legs: Vec<OrderLeg> = Vec::new();
    let label: Option<&'static str> = if entry.is_naked_option() {
        None
    } else {
        Some("short-close")
    };
    legs.push(leg(label, &entry.short_symbol, AlpacaOptionsPlanSide::Buy, quote.short_ask));
    if !entry.long_symbol.as_str().is_empty() {
        legs.push(
            leg(
                Some("long-close"),
                &entry.long_symbol,
                AlpacaOptionsPlanSide::Sell,
                quote.long_bid,
            ),
        );
    }
    let ghost primary = legs_view(legs@);
    match (&entry.short_call_symbol, &entry.long_call_symbol) {
        (Some(short), Some(long)) => {
            match (quote.short_call_ask, quote.long_call_bid) {
                (Some(ask), Some(bid)) => {
                    legs.push(
                        leg(Some("short-call-close"), short, AlpacaOptionsPlanSide::Buy, ask),
                    );
                    legs.push(leg(Some("long-call-close"), long, AlpacaOptionsPlanSide::Sell, bid));
                },
                _ => {},
            }
        },
        _ => {},
    }
    assert(legs_view(legs@) =~= primary + call_close_legs(*entry, *quote));
    assert(legs_view(legs@) =~= close_legs(*entry, *quote));
    legs
}

/// Builds reduce-only orders for closing an active strategy-state entry.
///
/// # Errors
///
/// Returns an error when quantity, price, or Alpaca option symbol inputs are invalid.
pub fn build_close_entry_orders(
    entry: &StrategyStateEntry,
    quote: &CloseQuote,
    order_list_id: &str,
) -> (result: Result<Vec<PlannedOrder>, OrderError>)
    ensures
        orders_built(
            result,
            close_legs(*entry, *quote),
            order_list_id@,
            entry.quantity,
            true,
        ),
{
    build_leg_orders(&close_entry_legs(entry, quote), order_list_id, entry.quantity, true)
}

/// Whether one of the legs trades a symbol on a side.
pub open spec fn trades_side(
    legs: Seq<LegView>,
    symbol: Seq<char>,
    side: AlpacaOptionsPlanSide,
) -> bool {
    exists|i: int| 0 <= i < legs.len() && (#[trigger] legs[i]).symbol == symbol && legs[i].side == side
}

/// Closing a recorded entry undoes its opening: for each leg that was opened there is a closing leg
/// on the same symbol and the opposite side, and there are as many closing legs as opening ones.
/// An iron condor needs a quote with its call prices.
pub proof fn closing_undoes_the_opening(
    entry: SelectedOptionsEntry,
    draft: crate::state::StrategyStateEntryDraft,
    now: String,
    quote: CloseQuote,
)
    requires
        entry.drafted_as(draft),
        forall|i: int| 0 <= i < entry.symbols().len() ==> (#[trigger] entry.symbols()[i]).len() > 0,
        entry is IronCondor ==> quote.short_call_ask is Some && quote.long_call_bid is Some,
    ensures
        close_legs(crate::state::recorded_entry(draft, now), quote).len() == entry_legs(entry).len(),
        forall|i: int|
            0 <= i < entry_legs(entry).len() ==> trades_side(
                close_legs(crate::state::recorded_entry(draft, now), quote),
                (#[trigger] entry_legs(entry)[i]).symbol,
                entry_legs(entry)[i].side.opposite(),
            ),
{
    let recorded = crate::state::recorded_entry(draft, now);
    let closing = close_legs(recorded, quote);
    let opening = entry_legs(entry);
    let symbols = entry.symbols();
    assert(symbols[0].len() > 0);
    assert(closing[0].symbol == recorded.short_symbol@);
    match entry {
        SelectedOptionsEntry::Credit(_) => {
            assert(symbols[1].len() > 0);
            assert(closing[0].symbol == opening[0].symbol && closing[1].symbol
                == opening[1].symbol);
        },
        SelectedOptionsEntry::IronCondor(_) => {
            assert(symbols[1].len() > 0);
            assert(closing[1].symbol == opening[1].symbol);
            assert(closing[2].symbol == opening[2].symbol);
            assert(closing[3].symbol == opening[3].symbol);
        },
        SelectedOptionsEntry::Debit(_) => {
            assert(symbols[1].len() > 0);
            assert(closing[0].symbol == opening[1].symbol);
            assert(closing[1].symbol == opening[0].symbol);
        },
        SelectedOptionsEntry::NakedOption(_) => {
            assert(closing.len() == 1);
        },
    }
}

// ---------------------------------------------------------------------------------------------
// Order lists
// ---------------------------------------------------------------------------------------------

/// An order-list ID: a prefix, the trade date, the underlying and a unique suffix.
pub open spec fn list_id(
    prefix: Seq<char>,
    trade_date: Seq<char>,
    underlying: Seq<char>,
    unique: Seq<char>,
) -> Seq<char> {
    prefix + trade_date + "-"@ + underlying + "-"@ + unique
}

/// Different suffixes of the same length give different order-list IDs.
pub proof fn suffixes_tell_order_lists_apart(
    prefix: Seq<char>,
    trade_date: Seq<char>,
    underlying: Seq<char>,
    a: Seq<char>,
    b: Seq<char>,
)
    requires
        a.len() == b.len(),
        a != b,
    ensures
        list_id(prefix, trade_date, underlying, a) != list_id(prefix, trade_date, underlying, b),
{
    let front = prefix + trade_date + "-"@ + underlying + "-"@;
    let x = list_id(prefix, trade_date, underlying, a);
    let y = list_id(prefix, trade_date, underlying, b);
    if x == y {
        assert(x.skip(front.len() as int) =~= a);
        assert(y.skip(front.len() as int) =~= b);
    }
}

/// An order under an order-list ID.
pub open spec fn listed(order: PlannedOrder, order_list_id: Seq<char>, after: PlannedOrder) -> bool {
    &&& opt_text(after.order_list_id) == Some(order_list_id)
    &&& after == (PlannedOrder { order_list_id: after.order_list_id, ..order })
}

/// Puts every order under an order-list ID.
pub fn apply_order_list_id(orders: Vec<PlannedOrder>, order_list_id: &str) -> (after: Vec<
    PlannedOrder,
>)
    ensures
        after@.len() == orders@.len(),
        forall|i: int|
            0 <= i < orders@.len() ==> listed(orders@[i], order_list_id@, #[trigger] after@[i]),
{
    let mut rest = orders;
    let mut after: Vec<PlannedOrder> = Vec::new();
    let n: usize = rest.len();
    let mut i: usize = 0;
    assert(orders@.skip(0) =~= orders@);
    while i < n
        invariant
            i <= n == orders@.len(),
            rest@ == orders@.skip(i as int),
            after@.len() == i,
            forall|k: int| 0 <= k < i ==> listed(orders@[k], order_list_id@, #[trigger] after@[k]),
        decreases n - i,
    {
        let mut order = rest.remove(0);
        order.order_list_id = Some(order_list_id.to_owned());
        after.push(order);
        assert(orders@.skip(i as int).remove(0) =~= orders@.skip(i + 1));
        i += 1;
    }
    after
}

/// How orders go to the broker.
#[derive(Clone, Debug)]
pub enum OrderSubmission {
    /// One order on its own.
    Single(PlannedOrder),
    /// Orders under one order-list ID.
    List(Vec<PlannedOrder>),
}

/// Returns how orders go to the broker: a lone order on its own, several as a list.
pub fn order_submission(orders: Vec<PlannedOrder>, order_list_id: &str) -> (submission: OrderSubmission)
    ensures
        match submission {
            OrderSubmission::Single(order) => orders@.len() == 1 && order == orders@[0],
            OrderSubmission::List(list) => orders@.len() != 1 && list@.len() == orders@.len() && (
            forall|i: int|
                0 <= i < orders@.len() ==> listed(orders@[i], order_list_id@, #[trigger] list@[i])),
        },
{
    let mut all = orders;
    if all.len() == 1 {
        OrderSubmission::Single(all.remove(0))
    } else {
        OrderSubmission::List(apply_order_list_id(all, order_list_id))
    }
}

/// Returns how a set of orders goes to the broker and how many execution events it brings.
///
/// # Errors
///
/// Returns an error when there is no order.
pub fn submit_orders(orders: Vec<PlannedOrder>, order_list_id: &str) -> (result: Result<
    (OrderSubmission, usize),
    OrderError,
>)
    ensures
        match result {
            Ok((submission, expected_events)) => {
                &&& expected_events == orders@.len()
                &&& orders@.len() > 0
                &&& match submission {
                    OrderSubmission::Single(order) => orders@.len() == 1 && order == orders@[0],
                    OrderSubmission::List(list) => orders@.len() > 1 && list@.len() == orders@.len()
                        && (forall|i: int|
                        0 <= i < orders@.len() ==> listed(
                            orders@[i],
                            order_list_id@,
                            #[trigger] list@[i],
                        )),
                }
            },
            Err(error) => orders@.len() == 0 && error@ == plain_error(
                OrderErrorKind::EmptyOrderSet,
                Seq::empty(),
            ),
        },
{
    let expected_events: usize = orders.len();
    if expected_events == 0 {
        let error = OrderError {
            kind: OrderErrorKind::EmptyOrderSet,
            subject: String::new(),
            legs: 0,
            closing: false,
        };
        assert(error.subject@ =~= Seq::<char>::empty());
        return Err(error);
    }
    Ok((order_submission(orders, order_list_id), expected_events))
}

// ---------------------------------------------------------------------------------------------
// Spread orders
// ---------------------------------------------------------------------------------------------

/// One leg of a spread instrument.
#[derive(Clone, Debug)]
pub struct OptionSpreadLeg {
    /// Option symbol.
    pub symbol: String,
    /// Instrument ID.
    pub instrument_id: String,
    /// Signed contracts per spread.
    pub ratio: i64,
}

/// A spread instrument and the candidate that it stands for.
#[derive(Clone, Debug)]
pub struct OptionSpreadPlan {
    /// Instrument ID.
    pub instrument_id: String,
    /// Symbol.
    pub raw_symbol: String,
    /// Underlying symbol.
    pub underlying: String,
    /// Strategy name.
    pub strategy: String,
    /// Legs.
    pub legs: Vec<OptionSpreadLeg>,
    /// Direction of the scanner premium.
    pub scanner_premium_kind: EntryPremiumKind,
    /// Scanner premium.
    pub scanner_premium: Amount,
}

/// Returns whether a spread has two legs.
pub fn is_vertical_spread_plan(plan: &OptionSpreadPlan) -> (vertical: bool)
    ensures
        vertical == (plan.legs@.len() == 2),
{
    plan.legs.len() == 2
}

/// The price of a spread as a signed debit.
pub open spec fn signed_scanner_price(plan: OptionSpreadPlan) -> Amount {
    match plan.scanner_premium_kind {
        EntryPremiumKind::Credit => plan.scanner_premium.negated_spec(),
        EntryPremiumKind::Debit => plan.scanner_premium,
    }
}

/// Returns the price of a spread as a signed debit.
pub fn signed_scanner_spread_price(plan: &OptionSpreadPlan) -> (price: Amount)
    ensures
        price == signed_scanner_price(*plan),
{
    match plan.scanner_premium_kind {
        EntryPremiumKind::Credit => plan.scanner_premium.negated(),
        EntryPremiumKind::Debit => plan.scanner_premium,
    }
}

/// Why a spread cannot be ordered: its quantity, then its price, then its legs.
pub open spec fn spread_failure(
    plan: OptionSpreadPlan,
    quantity: u64,
    signed_limit_price: Amount,
) -> Option<OrderErrorKind> {
    if quantity == 0 {
        Some(OrderErrorKind::SpreadQuantity)
    } else if !signed_limit_price.is_nan() && signed_limit_price.rank() == 0 {
        Some(OrderErrorKind::SpreadPrice)
    } else if plan.legs@.len() != 2 {
        Some(OrderErrorKind::SpreadLegs)
    } else {
        None
    }
}

/// Whether building the order of a spread came out as it must.
pub open spec fn spread_order_built(
    result: Result<PlannedOrder, OrderError>,
    plan: OptionSpreadPlan,
    order_list_id: Seq<char>,
    quantity: u64,
    signed_limit_price: Amount,
    closing: bool,
) -> bool {
    match result {
        Ok(order) => {
            &&& spread_failure(plan, quantity, signed_limit_price) is None
            &&& order.client_order_id@ == order_list_id + "-"@ + (if closing {
                "spread-close"@
            } else {
                "spread"@
            })
            &&& opt_text(order.order_list_id) == Some(order_list_id)
            &&& order.instrument_id == plan.instrument_id
            &&& order.side == if closing {
                AlpacaOptionsPlanSide::Sell
            } else {
                AlpacaOptionsPlanSide::Buy
            }
            &&& order.quantity == quantity
            &&& order.limit_price == signed_limit_price
            &&& order.reduce_only == closing
        },
        Err(error) => {
            &&& spread_failure(plan, quantity, signed_limit_price) == Some(error.kind)
            &&& error.subject@ == order_list_id
            &&& error.legs == plan.legs@.len()
            &&& error.closing == closing
        },
    }
}

fn build_spread_order(
    plan: &OptionSpreadPlan,
    order_list_id: &str,
    quantity: u64,
    signed_limit_price: Amount,
    closing: bool,
) -> (result: Result<PlannedOrder, OrderError>)
    ensures
        spread_order_built(
            result,
            *plan,
            order_list_id@,
            quantity,
            signed_limit_price,
            closing,
        ),
{
    let legs: usize = plan.legs.len();
    if quantity == 0 {
        return Err(
            OrderError {
                kind: OrderErrorKind::SpreadQuantity,
                subject: order_list_id.to_owned(),
                legs,
                closing,
            },
        );
    }
    if signed_limit_price.is_zero() {
        return Err(
            OrderError {
                kind: OrderErrorKind::SpreadPrice,
                subject: order_list_id.to_owned(),
                legs,
                closing,
            },
        );
    }
    if !is_vertical_spread_plan(plan) {
        return Err(
            OrderError {
                kind: OrderErrorKind::SpreadLegs,
                subject: order_list_id.to_owned(),
                legs,
                closing,
            },
        );
    }
    Ok(
        PlannedOrder {
            client_order_id: labeled_client_order_id(
                order_list_id,
                Some(
                    if closing {
                        "spread-close"
                    } else {
                        "spread"
                    },
                ),
            ),
            order_list_id: Some(order_list_id.to_owned()),
            instrument_id: plan.instrument_id.clone(),
            side: if closing {
                AlpacaOptionsPlanSide::Sell
            } else {
                AlpacaOptionsPlanSide::Buy
            },
            quantity,
            limit_price: signed_limit_price,
            reduce_only: closing,
        },
    )
}

/// Builds the order that opens a vertical spread as one instrument.
///
/// # Errors
///
/// Returns an error when the quantity or price is zero or the spread has other than two legs.
pub fn build_vertical_spread_entry_order(
    plan: &OptionSpreadPlan,
    order_list_id: &str,
    quantity: u64,
    signed_limit_price: Amount,
) -> (result: Result<PlannedOrder, OrderError>)
    ensures
        spread_order_built(result, *plan, order_list_id@, quantity, signed_limit_price, false),
{
    build_spread_order(plan, order_list_id, quantity, signed_limit_price, false)
}

/// Builds the order that closes a vertical spread as one instrument.
///
/// # Errors
///
/// Returns an error when the quantity or price is zero or the spread has other than two legs.
pub fn build_vertical_spread_close_order(
    plan: &OptionSpreadPlan,
    order_list_id: &str,
    quantity: u64,
    signed_limit_price: Amount,
) -> (result: Result<PlannedOrder, OrderError>)
    ensures
        spread_order_built(result, *plan, order_list_id@, quantity, signed_limit_price, true),
{
    build_spread_order(plan, order_list_id, quantity, signed_limit_price, true)
}

} // verus!
