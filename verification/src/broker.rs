//! Broker records: account, positions, orders and activities.
use vstd::prelude::*;

use crate::amount::Amount;
use crate::text::is_text;
use crate::text::opt_text;
use crate::text_set::TextSet;

verus! {

/// A broker account.
#[derive(Clone, Debug)]
pub struct AlpacaAccount {
    /// Account status.
    pub status: Option<String>,
    /// Account currency.
    pub currency: Option<String>,
    /// Whether trading is blocked.
    pub trading_blocked: Option<bool>,
    /// Whether transfers are blocked.
    pub transfers_blocked: Option<bool>,
    /// Whether the account is blocked.
    pub account_blocked: Option<bool>,
    /// Whether the user suspended trading.
    pub trade_suspended_by_user: Option<bool>,
    /// Buying power.
    pub buying_power: Option<String>,
    /// Options buying power.
    pub options_buying_power: Option<String>,
    /// Approved options level.
    pub options_approved_level: Option<u8>,
    /// Options trading level.
    pub options_trading_level: Option<u8>,
    /// Portfolio value.
    pub portfolio_value: Option<String>,
    /// Cash.
    pub cash: Option<String>,
}

/// A broker position.
#[derive(Clone, Debug)]
pub struct AlpacaPosition {
    /// Symbol.
    pub symbol: Option<String>,
    /// Asset class.
    pub asset_class: Option<String>,
    /// Quantity.
    pub qty: Option<String>,
    /// Side.
    pub side: Option<String>,
}

/// A broker order.
#[derive(Debug)]
pub struct AlpacaOrder {
    /// Broker order ID.
    pub id: Option<String>,
    /// Client order ID.
    pub client_order_id: Option<String>,
    /// Order status.
    pub status: Option<String>,
    /// Order class.
    pub order_class: Option<String>,
    /// Asset class.
    pub asset_class: Option<String>,
    /// Symbol.
    pub symbol: Option<String>,
    /// Quantity.
    pub qty: Option<String>,
    /// Side.
    pub side: Option<String>,
    /// Submission time.
    pub submitted_at: Option<String>,
    /// Creation time.
    pub created_at: Option<String>,
    /// Time of the last update.
    pub updated_at: Option<String>,
    /// Whether the broker still works the order.
    pub working: bool,
    /// Filled quantity of the order and its legs.
    pub filled: Amount,
    /// Nested legs.
    pub legs: Option<Vec<AlpacaOrder>>,
}

/// A broker account activity.
#[derive(Clone, Debug)]
pub struct AlpacaActivity {
    /// Activity type.
    pub activity_type: Option<String>,
    /// Activity ID.
    pub id: Option<String>,
    /// Price.
    pub price: Option<String>,
    /// Quantity.
    pub qty: Option<String>,
    /// Side.
    pub side: Option<String>,
    /// Symbol.
    pub symbol: Option<String>,
    /// Transaction time.
    pub transaction_time: Option<String>,
    /// Order ID.
    pub order_id: Option<String>,
    /// Activity date.
    pub date: Option<String>,
}

/// Whether an order status is final without a fill.
pub open spec fn is_terminal_status(status: Option<Seq<char>>) -> bool {
    ||| status == Some("canceled"@)
    ||| status == Some("expired"@)
    ||| status == Some("rejected"@)
}

/// Returns whether an order status is final without a fill.
pub fn terminal_status(status: &Option<String>) -> (terminal: bool)
    ensures
        terminal == is_terminal_status(opt_text(*status)),
{
    is_text(status, "canceled") || is_text(status, "expired") || is_text(status, "rejected")
}

impl AlpacaOrder {
    /// The time that the age of the order counts from.
    pub open spec fn start_text(self) -> Option<Seq<char>> {
        match self.submitted_at {
            Some(text) => Some(text@),
            None => opt_text(self.created_at),
        }
    }

    /// Whether a symbol is that of the order or of a leg at any depth.
    pub open spec fn mentions(self, symbol: Seq<char>) -> bool
        decreases self,
    {
        opt_text(self.symbol) == Some(symbol) || match self.legs {
            Some(legs) => legs_mention(legs@, symbol, legs@.len()),
            None => false,
        }
    }

    /// Returns the time that the age of the order counts from.
    pub fn start(&self) -> (text: Option<&str>)
        ensures
            match text {
                Some(found) => self.start_text() == Some(found@),
                None => self.start_text() is None,
            },
    {
        match &self.submitted_at {
            Some(text) => Some(text.as_str()),
            None => match &self.created_at {
                Some(text) => Some(text.as_str()),
                None => None,
            },
        }
    }

    /// Adds the symbols of the order and of its legs at any depth.
    pub fn collect_symbols(&self, symbols: &mut TextSet)
        requires
            old(symbols).wf(),
        ensures
            final(symbols).wf(),
            forall|x: Seq<char>| #[trigger] final(symbols).has(x) <==> old(symbols).has(x) || self.mentions(x),
        decreases self,
    {
        match &self.symbol {
            Some(symbol) => {
                symbols.insert(symbol.clone());
            },
            None => {},
        }
        let ghost middle = *symbols;
        proof {
            assert forall|x: Seq<char>| #[trigger] middle.has(x) <==> old(symbols).has(x) || opt_text(
                self.symbol,
            ) == Some(x) by {}
        }
        match &self.legs {
            Some(legs) => {
                let n: usize = legs.len();
                for i in 0..n
                    invariant
                        n == legs@.len(),
                        self.legs == Some(*legs),
                        symbols.wf(),
                        forall|x: Seq<char>|
                            #[trigger] symbols.has(x) <==> middle.has(x) || legs_mention(
                                legs@,
                                x,
                                i as nat,
                            ),
                {
                    let ghost before = *symbols;
                    assert(decreases_to!(*self => self.legs->0));
                    assert(decreases_to!(*legs => legs[i as int]));
                    legs[i].collect_symbols(symbols);
                    proof {
                        assert forall|x: Seq<char>|
                            #[trigger] symbols.has(x) <==> middle.has(x) || legs_mention(
                                legs@,
                                x,
                                (i + 1) as nat,
                            ) by {
                            assert(before.has(x) <==> middle.has(x) || legs_mention(
                                legs@,
                                x,
                                i as nat,
                            ));
                        }
                    }
                }
            },
            None => {},
        }
        proof {
            assert forall|x: Seq<char>| #[trigger] symbols.has(x) <==> old(symbols).has(x) || self.mentions(x) by {
                assert(middle.has(x) <==> old(symbols).has(x) || opt_text(self.symbol) == Some(x));
            }
        }
    }
}

/// Whether one of the first `n` legs mentions a symbol.
pub open spec fn legs_mention(legs: Seq<AlpacaOrder>, symbol: Seq<char>, n: nat) -> bool
    decreases legs, n,
{
    if n == 0 || n > legs.len() {
        false
    } else {
        legs_mention(legs, symbol, (n - 1) as nat) || legs[n - 1].mentions(symbol)
    }
}

/// Whether one of some orders mentions a symbol.
pub open spec fn orders_mention(orders: Seq<AlpacaOrder>, symbol: Seq<char>) -> bool {
    exists|i: int| 0 <= i < orders.len() && (#[trigger] orders[i]).mentions(symbol)
}

/// Returns the symbols of some orders and of their legs.
pub fn order_symbols(orders: &Vec<AlpacaOrder>) -> (symbols: TextSet)
    ensures
        symbols.wf(),
        forall|x: Seq<char>| #[trigger] symbols.has(x) <==> orders_mention(orders@, x),
{
    let mut symbols = TextSet::new();
    let n: usize = orders.len();
    for i in 0..n
        invariant
            n == orders@.len(),
            symbols.wf(),
            forall|x: Seq<char>|
                #[trigger] symbols.has(x) <==> (exists|k: int|
                    0 <= k < i && (#[trigger] orders@[k]).mentions(x)),
    {
        let ghost before = symbols;
        orders[i].collect_symbols(&mut symbols);
        proof {
            assert forall|x: Seq<char>|
                #[trigger] symbols.has(x) <==> (exists|k: int|
                    0 <= k < i + 1 && (#[trigger] orders@[k]).mentions(x)) by {
                assert(before.has(x) <==> (exists|k: int|
                    0 <= k < i && (#[trigger] orders@[k]).mentions(x)));
                if orders@[i as int].mentions(x) {
                    assert(orders@[i as int].mentions(x));
                }
            }
        }
    }
    symbols
}

/// Returns the symbols of some positions.
pub fn position_symbols(positions: &Vec<AlpacaPosition>) -> (symbols: TextSet)
    ensures
        symbols.wf(),
        forall|x: Seq<char>|
            #[trigger] symbols.has(x) <==> (exists|i: int|
                0 <= i < positions@.len() && opt_text((#[trigger] positions@[i]).symbol) == Some(x)),
{
    let mut symbols = TextSet::new();
    let n: usize = positions.len();
    for i in 0..n
        invariant
            n == positions@.len(),
            symbols.wf(),
            forall|x: Seq<char>|
                #[trigger] symbols.has(x) <==> (exists|k: int|
                    0 <= k < i && opt_text((#[trigger] positions@[k]).symbol) == Some(x)),
    {
        let ghost before = symbols;
        match &positions[i].symbol {
            Some(symbol) => {
                symbols.insert(symbol.clone());
            },
            None => {},
        }
        proof {
            assert forall|x: Seq<char>|
                #[trigger] symbols.has(x) <==> (exists|k: int|
                    0 <= k < i + 1 && opt_text((#[trigger] positions@[k]).symbol) == Some(x)) by {
                assert(before.has(x) <==> (exists|k: int|
                    0 <= k < i && opt_text((#[trigger] positions@[k]).symbol) == Some(x)));
                if opt_text(positions@[i as int].symbol) == Some(x) {
                    assert(opt_text(positions@[i as int].symbol) == Some(x));
                }
            }
        }
    }
    symbols
}

} // verus!
