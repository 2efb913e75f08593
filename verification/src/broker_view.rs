//! What the runtime cache holds of the broker when an entry is admitted.
use vstd::prelude::*;

use crate::admission::EntryAdmissionSnapshot;
use crate::entry::SelectedOptionsEntry;
use crate::orders::plain_error;
use crate::orders::ErrorView;
use crate::orders::OrderError;
use crate::orders::OrderErrorKind;
use crate::symbol::alpaca_instrument_id;
use crate::symbol::is_visible;
use crate::text::copy_texts;
use crate::text::lower;
use crate::text::same_text;
use crate::text::slices;
use crate::text::texts;
use crate::text::to_lower;
use crate::text_set::TextSet;

verus! {

/// An open position.
#[derive(Clone, Debug)]
pub struct HeldInstrument {
    /// Symbol of the instrument.
    pub symbol: String,
    /// Underlying of the instrument, if it is known.
    pub underlying: Option<String>,
}

/// An order that is open or on its way to the broker.
#[derive(Clone, Debug)]
pub struct WorkingOrder {
    /// Symbol of the instrument.
    pub symbol: String,
    /// Underlying of the instrument, if it is known.
    pub underlying: Option<String>,
    /// Order-list ID.
    pub order_list_id: Option<String>,
    /// Client order ID.
    pub client_order_id: String,
}

/// Open positions and working orders.
#[derive(Clone, Debug)]
pub struct BrokerView {
    /// Open positions.
    pub positions: Vec<HeldInstrument>,
    /// Open orders, then orders on their way.
    pub orders: Vec<WorkingOrder>,
}

/// Whether an instrument belongs to an underlying, whatever the case of its letters.
pub open spec fn on_underlying(instrument_underlying: Option<String>, underlying: Seq<char>) -> bool {
    match instrument_underlying {
        Some(text) => lower(text@) == lower(underlying),
        None => false,
    }
}

fn is_on_underlying(instrument_underlying: &Option<String>, underlying: &str) -> (yes: bool)
    ensures
        yes == on_underlying(*instrument_underlying, underlying@),
{
    match instrument_underlying {
        Some(text) => same_text(
            to_lower(text.as_str()).as_str(),
            to_lower(underlying).as_str(),
        ),
        None => false,
    }
}

impl BrokerView {
    /// Whether there is a position in a symbol.
    pub open spec fn holds(self, symbol: Seq<char>) -> bool {
        exists|i: int| 0 <= i < self.positions@.len() && (#[trigger] self.positions@[i]).symbol@ == symbol
    }

    /// Whether an order works on a symbol.
    pub open spec fn works(self, symbol: Seq<char>) -> bool {
        exists|i: int| 0 <= i < self.orders@.len() && (#[trigger] self.orders@[i]).symbol@ == symbol
    }

    fn has_position(&self, symbol: &str) -> (found: bool)
        ensures
            found == self.holds(symbol@),
    {
        for i in 0..self.positions.len()
            invariant
                forall|k: int| 0 <= k < i ==> (#[trigger] self.positions@[k]).symbol@ != symbol@,
        {
            if same_text(self.positions[i].symbol.as_str(), symbol) {
                assert(self.positions@[i as int].symbol@ == symbol@);
                return true;
            }
        }
        false
    }

    fn has_order(&self, symbol: &str) -> (found: bool)
        ensures
            found == self.works(symbol@),
    {
        for i in 0..self.orders.len()
            invariant
                forall|k: int| 0 <= k < i ==> (#[trigger] self.orders@[k]).symbol@ != symbol@,
        {
            if same_text(self.orders[i].symbol.as_str(), symbol) {
                assert(self.orders@[i as int].symbol@ == symbol@);
                return true;
            }
        }
        false
    }
}

/// The key of the group that an order belongs to: its order list, else itself.
pub open spec fn group_key(order: WorkingOrder) -> Seq<char> {
    match order.order_list_id {
        Some(id) => "list:"@ + id@,
        None => "client:"@ + order.client_order_id@,
    }
}

/// Whether a key is that of one of some orders.
pub open spec fn is_group(orders: Seq<WorkingOrder>, key: Seq<char>) -> bool {
    exists|i: int| 0 <= i < orders.len() && group_key(#[trigger] orders[i]) == key
}

/// Whether a number is that of the groups of some orders.
pub open spec fn counts_groups(orders: Seq<WorkingOrder>, count: usize) -> bool {
    exists|groups: TextSet|
        #![trigger groups.wf()]
        groups.wf() && groups@.len() == count && forall|key: Seq<char>|
            #[trigger] groups.has(key) <==> is_group(orders, key)
}

/// Returns the number of order groups.
pub fn open_broker_order_group_count(orders: &Vec<WorkingOrder>) -> (count: usize)
    ensures
        counts_groups(orders@, count),
{
    let mut groups = TextSet::new();
    let n: usize = orders.len();
    for i in 0..n
        invariant
            n == orders@.len(),
            groups.wf(),
            forall|key: Seq<char>|
                #[trigger] groups.has(key) <==> (exists|k: int|
                    0 <= k < i && group_key(#[trigger] orders@[k]) == key),
    {
        let ghost before = groups;
        let key: String = match &orders[i].order_list_id {
            Some(id) => "list:".to_owned().concat(id.as_str()),
            None => "client:".to_owned().concat(orders[i].client_order_id.as_str()),
        };
        groups.insert(key);
        proof {
            assert forall|x: Seq<char>|
                #[trigger] groups.has(x) <==> (exists|k: int|
                    0 <= k < i + 1 && group_key(#[trigger] orders@[k]) == x) by {
                assert(before.has(x) <==> (exists|k: int|
                    0 <= k < i && group_key(#[trigger] orders@[k]) == x));
                if group_key(orders@[i as int]) == x {
                    assert(group_key(orders@[i as int]) == x);
                }
            }
        }
    }
    assert(groups.wf());
    groups.len()
}

/// The reasons against one leg: a position on it, an order on it.
pub open spec fn leg_reason(view: BrokerView, symbol: Seq<char>) -> Seq<Seq<char>> {
    (if view.holds(symbol) {
        seq!["existing open position on candidate leg "@ + symbol]
    } else {
        Seq::empty()
    }) + (if view.works(symbol) {
        seq!["working order already references candidate leg "@ + symbol]
    } else {
        Seq::empty()
    })
}

/// The reasons against some legs, leg by leg.
pub open spec fn leg_reasons(view: BrokerView, symbols: Seq<Seq<char>>) -> Seq<Seq<char>>
    decreases symbols.len(),
{
    if symbols.len() == 0 {
        Seq::empty()
    } else {
        leg_reasons(view, symbols.drop_last()) + leg_reason(view, symbols.last())
    }
}

/// The reasons that positions on the underlying, other than on the legs, give.
pub open spec fn position_reasons(
    positions: Seq<HeldInstrument>,
    symbols: Seq<Seq<char>>,
    underlying: Seq<char>,
) -> Seq<Seq<char>>
    decreases positions.len(),
{
    if positions.len() == 0 {
        Seq::empty()
    } else {
        let earlier = position_reasons(positions.drop_last(), symbols, underlying);
        let last = positions.last();
        if !symbols.contains(last.symbol@) && on_underlying(last.underlying, underlying) {
            earlier.push(
                "existing open option position on underlying "@ + underlying + ": "@
                    + last.symbol@,
            )
        } else {
            earlier
        }
    }
}

/// The reasons that orders on the underlying, other than on the legs, give.
pub open spec fn order_reasons(
    orders: Seq<WorkingOrder>,
    symbols: Seq<Seq<char>>,
    underlying: Seq<char>,
) -> Seq<Seq<char>>
    decreases orders.len(),
{
    if orders.len() == 0 {
        Seq::empty()
    } else {
        let earlier = order_reasons(orders.drop_last(), symbols, underlying);
        let last = orders.last();
        if !symbols.contains(last.symbol@) && on_underlying(last.underlying, underlying) {
            earlier.push(
                "working order already references underlying "@ + underlying + ": "@
                    + last.symbol@,
            )
        } else {
            earlier
        }
    }
}

/// All reasons against an entry: those of the account, then those of its legs, then those of
/// positions and of orders on its underlying.
pub open spec fn admission_reasons(
    account_reasons: Seq<Seq<char>>,
    view: BrokerView,
    entry: SelectedOptionsEntry,
) -> Seq<Seq<char>> {
    account_reasons + leg_reasons(view, entry.symbols()) + position_reasons(
        view.positions@,
        entry.symbols(),
        entry.underlying_chars(),
    ) + order_reasons(view.orders@, entry.symbols(), entry.underlying_chars())
}

fn is_leg(symbols: &Vec<&str>, symbol: &str) -> (found: bool)
    ensures
        found == slices(symbols@).contains(symbol@),
{
    for i in 0..symbols.len()
        invariant
            forall|k: int| 0 <= k < i ==> slices(symbols@)[k] != symbol@,
    {
        if same_text(symbols[i], symbol) {
            assert(slices(symbols@)[i as int] == symbol@);
            return true;
        }
    }
    false
}

fn push_reason(reasons: &mut Vec<String>, reason: String)
    ensures
        texts(final(reasons)@) == texts(old(reasons)@).push(reason@),
{
    reasons.push(reason);
    assert(texts(reasons@) =~= texts(old(reasons)@).push(reason@));
}

fn push_leg_reasons(reasons: &mut Vec<String>, view: &BrokerView, symbols: &Vec<&str>)
    ensures
        texts(final(reasons)@) == texts(old(reasons)@) + leg_reasons(*view, slices(symbols@)),
{
    let n: usize = symbols.len();
    let ghost start = texts(reasons@);
    assert(start =~= start + leg_reasons(*view, slices(symbols@).take(0)));
    for i in 0..n
        invariant
            n == symbols@.len(),
            texts(reasons@) == start + leg_reasons(*view, slices(symbols@).take(i as int)),
    {
        let symbol = symbols[i];
        let ghost before = texts(reasons@);
        if view.has_position(symbol) {
            push_reason(
                reasons,
                "existing open position on candidate leg ".to_owned().concat(symbol),
            );
        }
        if view.has_order(symbol) {
            push_reason(
                reasons,
                "working order already references candidate leg ".to_owned().concat(symbol),
            );
        }
        proof {
            let next = slices(symbols@).take(i + 1);
            assert(next.drop_last() =~= slices(symbols@).take(i as int));
            assert(next.last() == symbol@);
            assert(texts(reasons@) =~= before + leg_reason(*view, symbol@));
            assert(texts(reasons@) =~= start + leg_reasons(*view, next));
        }
    }
    assert(slices(symbols@).take(n as int) =~= slices(symbols@));
}

fn push_position_reasons(
    reasons: &mut Vec<String>,
    view: &BrokerView,
    symbols: &Vec<&str>,
    underlying: &str,
)
    ensures
        texts(final(reasons)@) == texts(old(reasons)@) + position_reasons(
            view.positions@,
            slices(symbols@),
            underlying@,
        ),
{
    let n: usize = view.positions.len();
    let ghost start = texts(reasons@);
    assert(start =~= start + position_reasons(view.positions@.take(0), slices(symbols@), underlying@));
    for i in 0..n
        invariant
            n == view.positions@.len(),
            texts(reasons@) == start + position_reasons(
                view.positions@.take(i as int),
                slices(symbols@),
                underlying@,
            ),
    {
        let position = &view.positions[i];
        let ghost before = texts(reasons@);
        proof {
            let next = view.positions@.take(i + 1);
            assert(next.drop_last() =~= view.positions@.take(i as int));
            assert(next.last() == *position);
        }
        if !is_leg(symbols, position.symbol.as_str()) && is_on_underlying(
            &position.underlying,
            underlying,
        ) {
            push_reason(
                reasons,
                "existing open option position on underlying ".to_owned().concat(
                    underlying,
                ).concat(": ").concat(position.symbol.as_str()),
            );
        }
        assert(texts(reasons@) =~= start + position_reasons(
            view.positions@.take(i + 1),
            slices(symbols@),
            underlying@,
        ));
    }
    assert(view.positions@.take(n as int) =~= view.positions@);
}

fn push_order_reasons(
    reasons: &mut Vec<String>,
    view: &BrokerView,
    symbols: &Vec<&str>,
    underlying: &str,
)
    ensures
        texts(final(reasons)@) == texts(old(reasons)@) + order_reasons(
            view.orders@,
            slices(symbols@),
            underlying@,
        ),
{
    let n: usize = view.orders.len();
    let ghost start = texts(reasons@);
    assert(start =~= start + order_reasons(view.orders@.take(0), slices(symbols@), underlying@));
    for i in 0..n
        invariant
            n == view.orders@.len(),
            texts(reasons@) == start + order_reasons(
                view.orders@.take(i as int),
                slices(symbols@),
                underlying@,
            ),
    {
        let order = &view.orders[i];
        proof {
            let next = view.orders@.take(i + 1);
            assert(next.drop_last() =~= view.orders@.take(i as int));
            assert(next.last() == *order);
        }
        if !is_leg(symbols, order.symbol.as_str()) && is_on_underlying(
            &order.underlying,
            underlying,
        ) {
            push_reason(
                reasons,
                "working order already references underlying ".to_owned().concat(
                    underlying,
                ).concat(": ").concat(order.symbol.as_str()),
            );
        }
        assert(texts(reasons@) =~= start + order_reasons(
            view.orders@.take(i + 1),
            slices(symbols@),
            underlying@,
        ));
    }
    assert(view.orders@.take(n as int) =~= view.orders@);
}

/// The first symbol that gives no instrument ID.
pub open spec fn first_hidden(symbols: Seq<Seq<char>>) -> Option<Seq<char>>
    decreases symbols.len(),
{
    if symbols.len() == 0 {
        None
    } else if !is_visible(symbols[0]) {
        Some(symbols[0])
    } else {
        first_hidden(symbols.drop_first())
    }
}

proof fn first_hidden_at(symbols: Seq<Seq<char>>, at: int)
    requires
        0 <= at <= symbols.len(),
        forall|k: int| 0 <= k < at ==> is_visible(#[trigger] symbols[k]),
        at < symbols.len() ==> !is_visible(symbols[at]),
    ensures
        first_hidden(symbols) == if at < symbols.len() {
            Some(symbols[at])
        } else {
            None
        },
    decreases symbols.len(),
{
    if at > 0 {
        let rest = symbols.drop_first();
        assert(is_visible(symbols[0]));
        assert forall|k: int| 0 <= k < at - 1 implies is_visible(#[trigger] rest[k]) by {
            assert(rest[k] == symbols[k + 1]);
        }
        first_hidden_at(rest, at - 1);
    }
}

/// Why an entry cannot be looked up at the broker: the first leg without an instrument ID.
pub open spec fn symbol_failure(entry: SelectedOptionsEntry) -> Option<ErrorView> {
    match first_hidden(entry.symbols()) {
        Some(symbol) => Some(plain_error(OrderErrorKind::LegSymbol, symbol)),
        None => None,
    }
}

/// Takes stock of the broker for the admission of an entry.
///
/// # Errors
///
/// Returns an error when a leg of the entry has no instrument ID.
pub fn entry_admission_snapshot(
    account_reasons: &Vec<String>,
    view: &BrokerView,
    entry: &SelectedOptionsEntry,
) -> (snapshot: Result<EntryAdmissionSnapshot, OrderError>)
    ensures
        match snapshot {
            Ok(taken) => {
                &&& symbol_failure(*entry) is None
                &&& counts_groups(view.orders@, taken.open_order_count)
                &&& texts(taken.broker_admission_reasons@) == admission_reasons(
                    texts(account_reasons@),
                    *view,
                    *entry,
                )
            },
            Err(error) => symbol_failure(*entry) == Some(error@),
        },
{
    let open_order_count: usize = open_broker_order_group_count(&view.orders);
    let symbols = entry.option_symbols();
    for i in 0..symbols.len()
        invariant
            slices(symbols@) == entry.symbols(),
            forall|k: int| 0 <= k < i ==> is_visible(#[trigger] entry.symbols()[k]),
    {
        assert(entry.symbols()[i as int] == symbols@[i as int]@);
        if alpaca_instrument_id(symbols[i]).is_none() {
            proof {
                first_hidden_at(entry.symbols(), i as int);
            }
            return Err(
                OrderError {
                    kind: OrderErrorKind::LegSymbol,
                    subject: symbols[i].to_owned(),
                    legs: 0,
                    closing: false,
                },
            );
        }
    }
    assert(slices(symbols@).len() == symbols@.len());
    proof {
        first_hidden_at(entry.symbols(), entry.symbols().len() as int);
    }
    let mut reasons = copy_texts(account_reasons);
    push_leg_reasons(&mut reasons, view, &symbols);
    push_position_reasons(&mut reasons, view, &symbols, entry.underlying());
    push_order_reasons(&mut reasons, view, &symbols, entry.underlying());
    Ok(EntryAdmissionSnapshot { open_order_count, broker_admission_reasons: reasons })
}

/// An entry is kept out while the broker holds a position or works an order on one of its legs.
pub proof fn occupied_legs_give_reasons(
    account_reasons: Seq<Seq<char>>,
    view: BrokerView,
    entry: SelectedOptionsEntry,
    symbol: Seq<char>,
)
    requires
        entry.symbols().contains(symbol),
        view.holds(symbol) || view.works(symbol),
    ensures
        admission_reasons(account_reasons, view, entry).len() > 0,
{
    let at = entry.symbols().index_of(symbol);
    leg_reasons_keep(view, entry.symbols(), at);
}

proof fn leg_reasons_keep(view: BrokerView, symbols: Seq<Seq<char>>, at: int)
    requires
        0 <= at < symbols.len(),
        view.holds(symbols[at]) || view.works(symbols[at]),
    ensures
        leg_reasons(view, symbols).len() > 0,
    decreases symbols.len(),
{
    if at < symbols.len() - 1 {
        leg_reasons_keep(view, symbols.drop_last(), at);
    }
}

} // verus!
