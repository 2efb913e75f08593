//! Payloads of spread orders and of strategy state.
use vstd::prelude::*;

use crate::active_entry::spread_close_order_pricing;
use crate::active_entry::spread_close_unavailable;
use crate::active_entry::spread_entry_order_pricing;
use crate::active_entry::SpreadPricingSource;
use crate::active_entry::SpreadQuote;
use crate::amount::Amount;
use crate::calendar::UtcInstant;
use crate::fields::field_if;
use crate::fields::float;
use crate::fields::float_or_null;
use crate::fields::integer;
use crate::fields::list_value;
use crate::fields::natural;
use crate::fields::slice_list_value;
use crate::fields::text_list;
use crate::fields::text_or_null;
use crate::fields::trees;
use crate::fields::FieldTree;
use crate::fields::Fields;
use crate::json::Json;
use crate::json::JsonTree;
use crate::management::CloseOrderMode;
use crate::orders::signed_scanner_price;
use crate::orders::signed_scanner_spread_price;
use crate::orders::OptionSpreadLeg;
use crate::orders::OptionSpreadPlan;
use crate::orders::PlannedOrder;
use crate::planner::AlpacaOptionsEntryPlan;
use crate::planner::AlpacaOptionsEntryPlanLeg;
use crate::quotes::quote_age;
use crate::quotes::quote_age_secs;
use crate::state::StrategyStateEntry;
use crate::state::StrategyStateEntryDraft;
use crate::text::opt_slice;
use crate::text::opt_text;
use crate::text::texts;

verus! {

// ---------------------------------------------------------------------------------------------
// Legs and orders
// ---------------------------------------------------------------------------------------------

/// The fields of a planned leg.
pub open spec fn plan_leg_fields(leg: AlpacaOptionsEntryPlanLeg) -> Seq<FieldTree> {
    seq![
        ("symbol"@, JsonTree::Text(leg.symbol@)),
        ("side"@, JsonTree::Text(leg.side.label())),
    ]
}

/// The payload of a planned leg.
pub open spec fn plan_leg_tree(leg: AlpacaOptionsEntryPlanLeg) -> JsonTree {
    JsonTree::Object(plan_leg_fields(leg))
}

/// The payload of planned legs.
pub open spec fn plan_legs_tree(legs: Seq<AlpacaOptionsEntryPlanLeg>) -> JsonTree {
    JsonTree::List(Seq::new(legs.len(), |i: int| plan_leg_tree(legs[i])))
}

/// Returns the payload of the planned legs of an entry.
pub fn entry_plan_payload_legs(entry_plan: &AlpacaOptionsEntryPlan) -> (json: Json)
    ensures
        json@ == plan_legs_tree(entry_plan.order_legs@),
{
    let legs = &entry_plan.order_legs;
    let mut values: Vec<Json> = Vec::new();
    let n: usize = legs.len();
    for i in 0..n
        invariant
            n == legs@.len(),
            values@.len() == i,
            forall|k: int| 0 <= k < i ==> (#[trigger] values@[k])@ == plan_leg_tree(legs@[k]),
    {
        let fields = Fields::new().text("symbol", legs[i].symbol.as_str()).text(
            "side",
            legs[i].side.as_str(),
        );
        assert(fields@ =~= plan_leg_fields(legs@[i as int]));
        values.push(fields.into_json());
    }
    assert(trees(values@) =~= Seq::new(legs@.len(), |i: int| plan_leg_tree(legs@[i])));
    list_value(values)
}

/// The fields of a leg of a spread.
pub open spec fn spread_leg_fields(leg: OptionSpreadLeg) -> Seq<FieldTree> {
    seq![
        ("symbol"@, JsonTree::Text(leg.symbol@)),
        ("instrument_id"@, JsonTree::Text(leg.instrument_id@)),
        ("ratio"@, integer(leg.ratio)),
    ]
}

/// The payload of a leg of a spread.
pub open spec fn spread_leg_tree(leg: OptionSpreadLeg) -> JsonTree {
    JsonTree::Object(spread_leg_fields(leg))
}

/// The payload of the legs of a spread.
pub open spec fn spread_legs_tree(legs: Seq<OptionSpreadLeg>) -> JsonTree {
    JsonTree::List(Seq::new(legs.len(), |i: int| spread_leg_tree(legs[i])))
}

/// Returns the payload of the legs of a spread.
pub fn spread_legs_payload(legs: &Vec<OptionSpreadLeg>) -> (json: Json)
    ensures
        json@ == spread_legs_tree(legs@),
{
    let mut values: Vec<Json> = Vec::new();
    let n: usize = legs.len();
    for i in 0..n
        invariant
            n == legs@.len(),
            values@.len() == i,
            forall|k: int| 0 <= k < i ==> (#[trigger] values@[k])@ == spread_leg_tree(legs@[k]),
    {
        let fields = Fields::new().text("symbol", legs[i].symbol.as_str()).text(
            "instrument_id",
            legs[i].instrument_id.as_str(),
        ).integer("ratio", legs[i].ratio);
        assert(fields@ =~= spread_leg_fields(legs@[i as int]));
        values.push(fields.into_json());
    }
    assert(trees(values@) =~= Seq::new(legs@.len(), |i: int| spread_leg_tree(legs@[i])));
    list_value(values)
}

/// The numbers of an order, as the broker library rounds them.
#[derive(Clone, Copy, Debug)]
pub struct OrderFigures {
    /// Quantity.
    pub quantity: Amount,
    /// Limit price.
    pub limit_price: Amount,
}

/// The fields of an order.
pub open spec fn order_fields(order: PlannedOrder, figures: OrderFigures) -> Seq<FieldTree> {
    seq![
        ("client_order_id"@, JsonTree::Text(order.client_order_id@)),
        ("instrument_id"@, JsonTree::Text(order.instrument_id@)),
        ("side"@, JsonTree::Text(order.side.label())),
        ("quantity"@, float(figures.quantity)),
        ("signed_limit_price"@, float(figures.limit_price)),
        ("reduce_only"@, JsonTree::Bool(order.reduce_only)),
    ]
}

/// The payload of an order.
pub open spec fn order_tree(order: PlannedOrder, figures: OrderFigures) -> JsonTree {
    JsonTree::Object(order_fields(order, figures))
}

fn order_payload(order: &PlannedOrder, figures: OrderFigures) -> (json: Json)
    ensures
        json@ == order_tree(*order, figures),
{
    let fields = Fields::new().text("client_order_id", order.client_order_id.as_str()).text(
        "instrument_id",
        order.instrument_id.as_str(),
    ).text("side", order.side.as_str()).float("quantity", figures.quantity).float(
        "signed_limit_price",
        figures.limit_price,
    ).bool("reduce_only", order.reduce_only);
    assert(fields@ =~= order_fields(*order, figures));
    fields.into_json()
}

// ---------------------------------------------------------------------------------------------
// Spread prices
// ---------------------------------------------------------------------------------------------

/// A quote on a spread instrument with its midpoint and the time of its receipt.
#[derive(Clone, Copy, Debug)]
pub struct ObservedQuote {
    /// Quote.
    pub quote: SpreadQuote,
    /// Midpoint.
    pub mid: Amount,
    /// Time of the receipt in nanoseconds.
    pub ts_init: u64,
}

/// How the entry of a spread is priced.
#[derive(Clone, Copy, Debug)]
pub struct SpreadEntryOrderPricing {
    /// Where the limit comes from.
    pub pricing_source: SpreadPricingSource,
    /// Limit.
    pub signed_limit_price: Amount,
    /// Quote that the limit comes from.
    pub quote: Option<ObservedQuote>,
}

/// The quote of an observation.
pub open spec fn quote_in(observed: Option<ObservedQuote>) -> Option<SpreadQuote> {
    match observed {
        Some(found) => Some(found.quote),
        None => None,
    }
}

/// The pricing of the entry of a spread: the ask unless it is zero, else the signed scanner price.
pub open spec fn entry_pricing(
    plan: OptionSpreadPlan,
    observed: Option<ObservedQuote>,
) -> SpreadEntryOrderPricing {
    if observed is Some && (observed->0.quote.ask.is_nan() || observed->0.quote.ask.rank() != 0) {
        SpreadEntryOrderPricing {
            pricing_source: SpreadPricingSource::SpreadQuote,
            signed_limit_price: observed->0.quote.ask,
            quote: observed,
        }
    } else {
        SpreadEntryOrderPricing {
            pricing_source: SpreadPricingSource::ScannerSnapshot,
            signed_limit_price: signed_scanner_price(plan),
            quote: None,
        }
    }
}

/// Returns the pricing of the entry of a spread.
pub fn price_spread_entry(plan: &OptionSpreadPlan, observed: Option<ObservedQuote>) -> (pricing: SpreadEntryOrderPricing)
    ensures
        pricing == entry_pricing(*plan, observed),
{
    let quote = match observed {
        Some(found) => Some(found.quote),
        None => None,
    };
    let (pricing_source, signed_limit_price) = spread_entry_order_pricing(plan, &quote);
    let kept = match pricing_source {
        SpreadPricingSource::SpreadQuote => observed,
        SpreadPricingSource::ScannerSnapshot => None,
    };
    SpreadEntryOrderPricing { pricing_source, signed_limit_price, quote: kept }
}

/// How the close of a spread is priced.
#[derive(Clone, Copy, Debug)]
pub struct SpreadCloseOrderPricing {
    /// Limit.
    pub signed_limit_price: Option<Amount>,
    /// Why there is no limit.
    pub unavailable_reason: Option<&'static str>,
    /// Quote.
    pub quote: Option<ObservedQuote>,
    /// Age of the quote.
    pub quote_age_secs: Option<u64>,
    /// Age past which a quote is stale.
    pub quote_stale_limit_secs: u64,
    /// Close cushion.
    pub close_price_cushion: Amount,
}

/// Whether the close of a spread is priced right: at the bid less the cushion, unless something stands
/// against it.
pub open spec fn is_close_pricing(
    pricing: SpreadCloseOrderPricing,
    observed: Option<ObservedQuote>,
    bid_less_cushion: Amount,
    cushion: Amount,
    stale_limit_secs: u64,
    now: UtcInstant,
) -> bool {
    let reason = spread_close_unavailable(quote_in(observed), stale_limit_secs, now);
    &&& opt_slice(pricing.unavailable_reason) == reason
    &&& pricing.signed_limit_price == if reason is None {
        Some(bid_less_cushion)
    } else {
        None
    }
    &&& pricing.quote == observed
    &&& match pricing.quote_age_secs {
        Some(age) => observed is Some && quote_age(observed->0.quote.ts_event, now) == Some(
            age as int,
        ),
        None => observed is None || quote_age(observed->0.quote.ts_event, now) is None,
    }
    &&& pricing.quote_stale_limit_secs == stale_limit_secs
    &&& pricing.close_price_cushion == cushion
}

/// Returns the pricing of the close of a spread.
pub fn price_spread_close(
    observed: Option<ObservedQuote>,
    bid_less_cushion: Amount,
    cushion: Amount,
    stale_limit_secs: u64,
    now: UtcInstant,
) -> (pricing: SpreadCloseOrderPricing)
    ensures
        is_close_pricing(pricing, observed, bid_less_cushion, cushion, stale_limit_secs, now),
{
    let quote = match observed {
        Some(found) => Some(found.quote),
        None => None,
    };
    let unavailable_reason = spread_close_order_pricing(&quote, stale_limit_secs, now);
    let age: Option<u64> = match observed {
        Some(found) => quote_age_secs(found.quote.ts_event, now),
        None => None,
    };
    SpreadCloseOrderPricing {
        signed_limit_price: if unavailable_reason.is_none() {
            Some(bid_less_cushion)
        } else {
            None
        },
        unavailable_reason,
        quote: observed,
        quote_age_secs: age,
        quote_stale_limit_secs: stale_limit_secs,
        close_price_cushion: cushion,
    }
}

/// The fields of a quote, where there is one.
pub open spec fn quote_fields(observed: Option<ObservedQuote>) -> Seq<FieldTree> {
    match observed {
        Some(found) => seq![
            ("spread_bid"@, float(found.quote.bid)),
            ("spread_ask"@, float(found.quote.ask)),
            ("spread_mid"@, float(found.mid)),
            ("quote_ts_event"@, natural(found.quote.ts_event)),
            ("quote_ts_init"@, natural(found.ts_init)),
        ],
        None => Seq::empty(),
    }
}

fn add_quote(fields: Fields, observed: Option<ObservedQuote>) -> (after: Fields)
    ensures
        after@ == fields@ + quote_fields(observed),
{
    let ghost before = fields@;
    let after = match observed {
        Some(found) => fields.float("spread_bid", found.quote.bid).float(
            "spread_ask",
            found.quote.ask,
        ).float("spread_mid", found.mid).natural("quote_ts_event", found.quote.ts_event).natural(
            "quote_ts_init",
            found.ts_init,
        ),
        None => fields,
    };
    assert(after@ =~= before + quote_fields(observed));
    after
}

// ---------------------------------------------------------------------------------------------
// Spread payloads
// ---------------------------------------------------------------------------------------------

/// The fields that name a planned spread.
pub open spec fn planned_spread_fields(
    trade_date: Seq<char>,
    entry_plan: AlpacaOptionsEntryPlan,
    plan: OptionSpreadPlan,
) -> Seq<FieldTree> {
    seq![
        ("trade_date"@, JsonTree::Text(trade_date)),
        ("underlying"@, JsonTree::Text(plan.underlying@)),
        ("strategy"@, JsonTree::Text(plan.strategy@)),
        ("strategy_family"@, JsonTree::Text(entry_plan.family.label())),
        ("symbols"@, text_list(texts(entry_plan.symbols@))),
        ("planned_order_legs"@, plan_legs_tree(entry_plan.order_legs@)),
        ("spread_instrument_id"@, JsonTree::Text(plan.instrument_id@)),
        ("spread_symbol"@, JsonTree::Text(plan.raw_symbol@)),
        ("legs"@, spread_legs_tree(plan.legs@)),
    ]
}

fn add_planned_spread(
    fields: Fields,
    trade_date: &str,
    entry_plan: &AlpacaOptionsEntryPlan,
    plan: &OptionSpreadPlan,
) -> (after: Fields)
    ensures
        after@ == fields@ + planned_spread_fields(trade_date@, *entry_plan, *plan),
{
    let ghost before = fields@;
    let after = fields.text("trade_date", trade_date).text(
        "underlying",
        plan.underlying.as_str(),
    ).text("strategy", plan.strategy.as_str()).text(
        "strategy_family",
        entry_plan.family.as_str(),
    ).texts("symbols", &entry_plan.symbols).json(
        "planned_order_legs",
        entry_plan_payload_legs(entry_plan),
    ).text("spread_instrument_id", plan.instrument_id.as_str()).text(
        "spread_symbol",
        plan.raw_symbol.as_str(),
    ).json("legs", spread_legs_payload(&plan.legs));
    assert(after@ =~= before + planned_spread_fields(trade_date@, *entry_plan, *plan));
    after
}

/// What the scanner said of a spread.
pub open spec fn scanner_fields(plan: OptionSpreadPlan) -> Seq<FieldTree> {
    seq![
        ("scanner_premium_kind"@, JsonTree::Text(plan.scanner_premium_kind.label())),
        ("scanner_premium"@, float(plan.scanner_premium)),
    ]
}

/// What was seen of the quote on a spread.
#[derive(Clone, Copy, Debug)]
pub struct SpreadSighting {
    /// Quote.
    pub observed: ObservedQuote,
    /// Scanner premium less the magnitude of the midpoint.
    pub scanner_vs_spread_mid: Amount,
}

/// The end of a spread-quote payload.
pub open spec fn sighting_fields(sighting: Option<SpreadSighting>) -> Seq<FieldTree> {
    match sighting {
        Some(seen) => seq![
            ("action"@, JsonTree::Text("observed"@)),
            ("pricing_source"@, JsonTree::Text("nautilus_spread_quote"@)),
            ("spread_bid"@, float(seen.observed.quote.bid)),
            ("spread_ask"@, float(seen.observed.quote.ask)),
            ("spread_mid"@, float(seen.observed.mid)),
            ("scanner_vs_spread_mid"@, float(seen.scanner_vs_spread_mid)),
            ("quote_ts_event"@, natural(seen.observed.quote.ts_event)),
            ("quote_ts_init"@, natural(seen.observed.ts_init)),
        ],
        None => seq![
            ("action"@, JsonTree::Text("unavailable"@)),
            ("reason"@, JsonTree::Text("spread_quote_missing"@)),
            ("pricing_source"@, JsonTree::Text("scanner_snapshot"@)),
        ],
    }
}

/// Returns the payload on the quote of the selected spread.
pub fn spread_quote_snapshot_payload(
    trade_date: &str,
    entry_plan: &AlpacaOptionsEntryPlan,
    plan: &OptionSpreadPlan,
    sighting: Option<SpreadSighting>,
) -> (payload: Json)
    ensures
        payload@ == JsonTree::Object(
            planned_spread_fields(trade_date@, *entry_plan, *plan) + scanner_fields(*plan) + seq![
                ("vega_pricing_enabled"@, JsonTree::Bool(false)),
            ] + sighting_fields(sighting),
        ),
{
    let fields = add_planned_spread(Fields::new(), trade_date, entry_plan, plan);
    let fields = fields.text("scanner_premium_kind", plan.scanner_premium_kind.as_str()).float(
        "scanner_premium",
        plan.scanner_premium,
    ).bool("vega_pricing_enabled", false);
    let ghost before = fields@;
    let fields = match sighting {
        Some(seen) => fields.text("action", "observed").text(
            "pricing_source",
            "nautilus_spread_quote",
        ).float("spread_bid", seen.observed.quote.bid).float(
            "spread_ask",
            seen.observed.quote.ask,
        ).float("spread_mid", seen.observed.mid).float(
            "scanner_vs_spread_mid",
            seen.scanner_vs_spread_mid,
        ).natural("quote_ts_event", seen.observed.quote.ts_event).natural(
            "quote_ts_init",
            seen.observed.ts_init,
        ),
        None => fields.text("action", "unavailable").text("reason", "spread_quote_missing").text(
            "pricing_source",
            "scanner_snapshot",
        ),
    };
    assert(fields@ =~= before + sighting_fields(sighting));
    assert(before =~= planned_spread_fields(trade_date@, *entry_plan, *plan) + scanner_fields(*plan)
        + seq![("vega_pricing_enabled"@, JsonTree::Bool(false))]);
    fields.into_json()
}

/// The draft of a spread entry.
#[derive(Debug)]
pub struct VerticalSpreadOrderDraft {
    /// Spread.
    pub plan: OptionSpreadPlan,
    /// Order.
    pub order: PlannedOrder,
    /// Numbers of the order.
    pub figures: OrderFigures,
    /// Pricing.
    pub pricing: SpreadEntryOrderPricing,
    /// Signed scanner price less the limit.
    pub scanner_vs_order_limit: Amount,
}

/// The fields of the draft of a spread entry.
pub open spec fn entry_draft_fields(
    trade_date: Seq<char>,
    entry_plan: AlpacaOptionsEntryPlan,
    dry_run_reason: Seq<char>,
    draft: VerticalSpreadOrderDraft,
) -> Seq<FieldTree> {
    seq![
        ("action"@, JsonTree::Text("drafted"@)),
        ("dry_run_reason"@, JsonTree::Text(dry_run_reason)),
    ] + planned_spread_fields(trade_date, entry_plan, draft.plan) + seq![
        ("order"@, order_tree(draft.order, draft.figures)),
        ("pricing_source"@, JsonTree::Text(draft.pricing.pricing_source.label())),
    ] + scanner_fields(draft.plan) + seq![
        ("scanner_signed_price"@, float(signed_scanner_price(draft.plan))),
        ("scanner_vs_order_limit"@, float(draft.scanner_vs_order_limit)),
        ("current_broker_submit_path"@, JsonTree::Text("legacy_leg_order_list"@)),
        ("draft_broker_submit_path"@, JsonTree::Text("single_option_spread_order"@)),
        ("submitted"@, JsonTree::Bool(false)),
        ("vega_pricing_enabled"@, JsonTree::Bool(false)),
    ] + quote_fields(draft.pricing.quote)
}

/// Returns the payload of the draft of a spread entry.
pub fn vertical_spread_order_draft_payload(
    trade_date: &str,
    entry_plan: &AlpacaOptionsEntryPlan,
    dry_run_reason: &str,
    draft: &VerticalSpreadOrderDraft,
) -> (payload: Json)
    ensures
        payload@ == JsonTree::Object(
            entry_draft_fields(trade_date@, *entry_plan, dry_run_reason@, *draft),
        ),
{
    let plan = &draft.plan;
    let fields = Fields::new().text("action", "drafted").text("dry_run_reason", dry_run_reason);
    let fields = add_planned_spread(fields, trade_date, entry_plan, plan);
    let fields = fields.json("order", order_payload(&draft.order, draft.figures)).text(
        "pricing_source",
        draft.pricing.pricing_source.as_str(),
    ).text("scanner_premium_kind", plan.scanner_premium_kind.as_str()).float(
        "scanner_premium",
        plan.scanner_premium,
    ).float("scanner_signed_price", signed_scanner_spread_price(plan)).float(
        "scanner_vs_order_limit",
        draft.scanner_vs_order_limit,
    ).text("current_broker_submit_path", "legacy_leg_order_list").text(
        "draft_broker_submit_path",
        "single_option_spread_order",
    ).bool("submitted", false).bool("vega_pricing_enabled", false);
    let fields = add_quote(fields, draft.pricing.quote);
    assert(fields@ =~= entry_draft_fields(trade_date@, *entry_plan, dry_run_reason@, *draft));
    fields.into_json()
}

/// The draft of a spread close.
#[derive(Debug)]
pub struct VerticalSpreadCloseOrderDraft {
    /// Spread.
    pub plan: OptionSpreadPlan,
    /// Order, where the close has a limit, with its numbers.
    pub order: Option<(PlannedOrder, OrderFigures)>,
    /// Pricing.
    pub pricing: SpreadCloseOrderPricing,
}

/// The fields of the draft of a spread close.
pub open spec fn close_draft_fields(
    entry: StrategyStateEntry,
    close_order_list_id: Seq<char>,
    draft: VerticalSpreadCloseOrderDraft,
    close_order_mode: CloseOrderMode,
) -> Seq<FieldTree> {
    let plan = draft.plan;
    let pricing = draft.pricing;
    seq![
        (
            "action"@,
            JsonTree::Text(
                if draft.order is Some {
                    "drafted"@
                } else {
                    "unavailable"@
                },
            ),
        ),
        ("trade_date"@, JsonTree::Text(entry.trade_date@)),
        ("underlying"@, JsonTree::Text(plan.underlying@)),
        ("strategy"@, JsonTree::Text(plan.strategy@)),
        ("entry_order_list_id"@, JsonTree::Text(entry.order_list_id@)),
        ("draft_close_order_list_id"@, JsonTree::Text(close_order_list_id)),
        ("symbols"@, text_list(entry.leg_symbols())),
        ("spread_instrument_id"@, JsonTree::Text(plan.instrument_id@)),
        ("spread_symbol"@, JsonTree::Text(plan.raw_symbol@)),
        ("legs"@, spread_legs_tree(plan.legs@)),
        (
            "order"@,
            match draft.order {
                Some((order, figures)) => order_tree(order, figures),
                None => JsonTree::Null,
            },
        ),
        ("pricing_source"@, JsonTree::Text("nautilus_spread_quote"@)),
        ("signed_close_limit"@, float_or_null(pricing.signed_limit_price)),
        ("close_price_cushion"@, float(pricing.close_price_cushion)),
    ] + scanner_fields(plan) + seq![
        ("scanner_signed_entry_price"@, float(signed_scanner_price(plan))),
        ("close_side"@, JsonTree::Text("sell"@)),
        ("reduce_only"@, JsonTree::Bool(true)),
        ("current_broker_submit_path"@, JsonTree::Text(close_order_mode.label())),
        ("draft_broker_submit_path"@, JsonTree::Text("single_option_spread_order"@)),
        ("submitted"@, JsonTree::Bool(false)),
        ("vega_pricing_enabled"@, JsonTree::Bool(false)),
    ] + field_if(
        "reason"@,
        match pricing.unavailable_reason {
            Some(reason) => Some(JsonTree::Text(reason@)),
            None => None,
        },
    ) + quote_fields(pricing.quote) + field_if(
        "quote_age_secs"@,
        match pricing.quote_age_secs {
            Some(age) => Some(natural(age)),
            None => None,
        },
    ) + seq![("quote_stale_limit_secs"@, natural(pricing.quote_stale_limit_secs))]
}

/// Returns the payload of the draft of a spread close.
pub fn vertical_spread_close_order_draft_payload(
    entry: &StrategyStateEntry,
    close_order_list_id: &str,
    draft: &VerticalSpreadCloseOrderDraft,
    close_order_mode: CloseOrderMode,
) -> (payload: Json)
    ensures
        payload@ == JsonTree::Object(
            close_draft_fields(*entry, close_order_list_id@, *draft, close_order_mode),
        ),
{
    let plan = &draft.plan;
    let pricing = &draft.pricing;
    let (action, order) = match &draft.order {
        Some((order, figures)) => ("drafted", order_payload(order, *figures)),
        None => ("unavailable", Json::Null),
    };
    let fields = Fields::new().text("action", action).text(
        "trade_date",
        entry.trade_date.as_str(),
    ).text("underlying", plan.underlying.as_str()).text("strategy", plan.strategy.as_str()).text(
        "entry_order_list_id",
        entry.order_list_id.as_str(),
    ).text("draft_close_order_list_id", close_order_list_id).json(
        "symbols",
        slice_list_value(&entry.symbols()),
    ).text("spread_instrument_id", plan.instrument_id.as_str()).text(
        "spread_symbol",
        plan.raw_symbol.as_str(),
    ).json("legs", spread_legs_payload(&plan.legs)).json("order", order).text(
        "pricing_source",
        "nautilus_spread_quote",
    ).opt_float("signed_close_limit", pricing.signed_limit_price).float(
        "close_price_cushion",
        pricing.close_price_cushion,
    );
    let fields = fields.text("scanner_premium_kind", plan.scanner_premium_kind.as_str()).float(
        "scanner_premium",
        plan.scanner_premium,
    ).float("scanner_signed_entry_price", signed_scanner_spread_price(plan)).text(
        "close_side",
        "sell",
    ).bool("reduce_only", true).text(
        "current_broker_submit_path",
        close_order_mode.as_str(),
    ).text("draft_broker_submit_path", "single_option_spread_order").bool(
        "submitted",
        false,
    ).bool("vega_pricing_enabled", false);
    let fields = fields.text_if("reason", pricing.unavailable_reason);
    let fields = add_quote(fields, pricing.quote);
    let fields = fields.natural_if("quote_age_secs", pricing.quote_age_secs).natural(
        "quote_stale_limit_secs",
        pricing.quote_stale_limit_secs,
    );
    assert(fields@ =~= close_draft_fields(*entry, close_order_list_id@, *draft, close_order_mode));
    fields.into_json()
}

// ---------------------------------------------------------------------------------------------
// Strategy state
// ---------------------------------------------------------------------------------------------

/// The fields on the spread of an entry.
pub open spec fn spread_fields(
    instrument_id: Option<String>,
    raw_symbol: Option<String>,
    legs: Seq<OptionSpreadLeg>,
    entry_pricing_source: Option<String>,
) -> Seq<FieldTree> {
    seq![
        ("spread_instrument_id"@, text_or_null(opt_text(instrument_id))),
        ("spread_raw_symbol"@, text_or_null(opt_text(raw_symbol))),
        ("spread_legs"@, spread_legs_tree(legs)),
        ("entry_pricing_source"@, text_or_null(opt_text(entry_pricing_source))),
    ]
}

/// The fields of an entry before it is recorded.
pub open spec fn draft_fields(draft: StrategyStateEntryDraft) -> Seq<FieldTree> {
    seq![
        ("trade_date"@, JsonTree::Text(draft.trade_date@)),
        ("underlying"@, JsonTree::Text(draft.underlying@)),
        ("strategy"@, JsonTree::Text(draft.strategy@)),
        ("order_list_id"@, JsonTree::Text(draft.order_list_id@)),
        ("short_symbol"@, JsonTree::Text(draft.short_symbol@)),
        ("long_symbol"@, JsonTree::Text(draft.long_symbol@)),
        ("short_call_symbol"@, text_or_null(opt_text(draft.short_call_symbol))),
        ("long_call_symbol"@, text_or_null(opt_text(draft.long_call_symbol))),
        ("quantity"@, natural(draft.quantity)),
        ("credit"@, float(draft.credit)),
        ("debit"@, float_or_null(draft.debit)),
        ("risk_capital_usd"@, float_or_null(draft.risk_capital_usd)),
        ("score"@, float(draft.score)),
        ("parent_order_id"@, text_or_null(opt_text(draft.parent_order_id))),
        ("submitted_at_utc"@, text_or_null(opt_text(draft.submitted_at_utc))),
    ]
}

fn add_spread(
    fields: Fields,
    instrument_id: &Option<String>,
    raw_symbol: &Option<String>,
    legs: &Vec<OptionSpreadLeg>,
    entry_pricing_source: &Option<String>,
) -> (after: Fields)
    ensures
        after@ == fields@ + spread_fields(
            *instrument_id,
            *raw_symbol,
            legs@,
            *entry_pricing_source,
        ),
{
    let ghost before = fields@;
    let after = fields.opt_text("spread_instrument_id", instrument_id).opt_text(
        "spread_raw_symbol",
        raw_symbol,
    ).json("spread_legs", spread_legs_payload(legs)).opt_text(
        "entry_pricing_source",
        entry_pricing_source,
    );
    assert(after@ =~= before + spread_fields(
        *instrument_id,
        *raw_symbol,
        legs@,
        *entry_pricing_source,
    ));
    after
}

/// What is told of an entry before it is recorded.
pub open spec fn draft_tree(draft: StrategyStateEntryDraft) -> JsonTree {
    JsonTree::Object(
        draft_fields(draft) + spread_fields(
            draft.spread_instrument_id,
            draft.spread_raw_symbol,
            draft.spread_legs@,
            draft.entry_pricing_source,
        ),
    )
}

/// Returns the payload of an entry before it is recorded.
pub fn state_entry_draft_payload(draft: &StrategyStateEntryDraft) -> (payload: Json)
    ensures
        payload@ == draft_tree(*draft),
{
    let fields = Fields::new().text("trade_date", draft.trade_date.as_str()).text(
        "underlying",
        draft.underlying.as_str(),
    ).text("strategy", draft.strategy.as_str()).text(
        "order_list_id",
        draft.order_list_id.as_str(),
    ).text("short_symbol", draft.short_symbol.as_str()).text(
        "long_symbol",
        draft.long_symbol.as_str(),
    ).opt_text("short_call_symbol", &draft.short_call_symbol).opt_text(
        "long_call_symbol",
        &draft.long_call_symbol,
    ).natural("quantity", draft.quantity).float("credit", draft.credit).opt_float(
        "debit",
        draft.debit,
    ).opt_float("risk_capital_usd", draft.risk_capital_usd).float("score", draft.score).opt_text(
        "parent_order_id",
        &draft.parent_order_id,
    ).opt_text("submitted_at_utc", &draft.submitted_at_utc);
    assert(fields@ =~= draft_fields(*draft));
    add_spread(
        fields,
        &draft.spread_instrument_id,
        &draft.spread_raw_symbol,
        &draft.spread_legs,
        &draft.entry_pricing_source,
    ).into_json()
}

/// The first fields of a recorded entry.
pub open spec fn entry_fields(entry: StrategyStateEntry) -> Seq<FieldTree> {
    seq![
        ("trade_date"@, JsonTree::Text(entry.trade_date@)),
        ("underlying"@, JsonTree::Text(entry.underlying@)),
        ("strategy"@, JsonTree::Text(entry.strategy@)),
        ("order_list_id"@, JsonTree::Text(entry.order_list_id@)),
        ("short_symbol"@, JsonTree::Text(entry.short_symbol@)),
        ("long_symbol"@, JsonTree::Text(entry.long_symbol@)),
        ("short_call_symbol"@, text_or_null(opt_text(entry.short_call_symbol))),
        ("long_call_symbol"@, text_or_null(opt_text(entry.long_call_symbol))),
        ("quantity"@, natural(entry.quantity)),
        ("credit"@, float(entry.credit)),
        ("debit"@, float_or_null(entry.debit)),
        ("risk_capital_usd"@, float_or_null(entry.risk_capital_usd)),
        ("score"@, float(entry.score)),
        ("parent_order_id"@, text_or_null(opt_text(entry.parent_order_id))),
        ("submitted_at_utc"@, text_or_null(opt_text(entry.submitted_at_utc))),
    ]
}

/// The last fields of a recorded entry.
pub open spec fn entry_close_fields(entry: StrategyStateEntry) -> Seq<FieldTree> {
    seq![
        ("close_order_list_id"@, text_or_null(opt_text(entry.close_order_list_id))),
        ("close_parent_order_id"@, text_or_null(opt_text(entry.close_parent_order_id))),
        ("close_reason"@, text_or_null(opt_text(entry.close_reason))),
        ("close_order_mode"@, text_or_null(opt_text(entry.close_order_mode))),
        ("close_attempts"@, natural(entry.close_attempts as u64)),
        ("last_close_submitted_at_utc"@, text_or_null(opt_text(entry.last_close_submitted_at_utc))),
        ("submitted"@, JsonTree::Bool(entry.submitted)),
        ("canceled"@, JsonTree::Bool(entry.canceled)),
        ("closed"@, JsonTree::Bool(entry.closed)),
        ("recorded_at_utc"@, JsonTree::Text(entry.recorded_at_utc@)),
        ("closed_at_utc"@, text_or_null(opt_text(entry.closed_at_utc))),
    ]
}

/// What is told of a recorded entry.
pub open spec fn entry_tree(entry: StrategyStateEntry) -> JsonTree {
    JsonTree::Object(
        entry_fields(entry) + spread_fields(
            entry.spread_instrument_id,
            entry.spread_raw_symbol,
            entry.spread_legs@,
            entry.entry_pricing_source,
        ) + entry_close_fields(entry),
    )
}

/// Returns the payload of a recorded entry.
pub fn state_entry_payload(entry: &StrategyStateEntry) -> (payload: Json)
    ensures
        payload@ == entry_tree(*entry),
{
    let fields = Fields::new().text("trade_date", entry.trade_date.as_str()).text(
        "underlying",
        entry.underlying.as_str(),
    ).text("strategy", entry.strategy.as_str()).text(
        "order_list_id",
        entry.order_list_id.as_str(),
    ).text("short_symbol", entry.short_symbol.as_str()).text(
        "long_symbol",
        entry.long_symbol.as_str(),
    ).opt_text("short_call_symbol", &entry.short_call_symbol).opt_text(
        "long_call_symbol",
        &entry.long_call_symbol,
    ).natural("quantity", entry.quantity).float("credit", entry.credit).opt_float(
        "debit",
        entry.debit,
    ).opt_float("risk_capital_usd", entry.risk_capital_usd).float("score", entry.score).opt_text(
        "parent_order_id",
        &entry.parent_order_id,
    ).opt_text("submitted_at_utc", &entry.submitted_at_utc);
    assert(fields@ =~= entry_fields(*entry));
    let fields = add_spread(
        fields,
        &entry.spread_instrument_id,
        &entry.spread_raw_symbol,
        &entry.spread_legs,
        &entry.entry_pricing_source,
    );
    let ghost before = fields@;
    let fields = fields.opt_text("close_order_list_id", &entry.close_order_list_id).opt_text(
        "close_parent_order_id",
        &entry.close_parent_order_id,
    ).opt_text("close_reason", &entry.close_reason).opt_text(
        "close_order_mode",
        &entry.close_order_mode,
    ).natural("close_attempts", entry.close_attempts as u64).opt_text(
        "last_close_submitted_at_utc",
        &entry.last_close_submitted_at_utc,
    ).bool("submitted", entry.submitted).bool("canceled", entry.canceled).bool(
        "closed",
        entry.closed,
    ).text("recorded_at_utc", entry.recorded_at_utc.as_str()).opt_text(
        "closed_at_utc",
        &entry.closed_at_utc,
    );
    assert(fields@ =~= before + entry_close_fields(*entry));
    fields.into_json()
}

// ---------------------------------------------------------------------------------------------
// Changes of strategy state
// ---------------------------------------------------------------------------------------------

/// What the broker said when it took an order.
#[derive(Clone, Debug)]
pub struct OrderAcceptance {
    /// Event ID.
    pub event_id: String,
    /// Client order ID.
    pub client_order_id: String,
    /// Broker order ID.
    pub venue_order_id: String,
    /// Instrument ID.
    pub instrument_id: String,
    /// Account ID.
    pub account_id: String,
    /// Whether the acceptance came from a reconciliation, as a number.
    pub reconciliation: u8,
    /// Time of the event in nanoseconds.
    pub ts_event: u64,
}

/// What the broker said when it refused an order.
#[derive(Clone, Debug)]
pub struct OrderRefusal {
    /// Event ID.
    pub event_id: String,
    /// Label of the change of state that an outright refusal makes.
    pub event_type: &'static str,
    /// Client order ID.
    pub client_order_id: String,
    /// Reason.
    pub reason: String,
    /// Time of the event in nanoseconds.
    pub ts_event: u64,
}

/// The fields of an acceptance.
pub open spec fn acceptance_fields(event: OrderAcceptance) -> Seq<FieldTree> {
    seq![
        ("client_order_id"@, JsonTree::Text(event.client_order_id@)),
        ("venue_order_id"@, JsonTree::Text(event.venue_order_id@)),
        ("instrument_id"@, JsonTree::Text(event.instrument_id@)),
        ("account_id"@, JsonTree::Text(event.account_id@)),
        ("reconciliation"@, natural(event.reconciliation as u64)),
    ]
}

fn add_acceptance(fields: Fields, event: &OrderAcceptance) -> (after: Fields)
    ensures
        after@ == fields@ + acceptance_fields(*event),
{
    let ghost before = fields@;
    let after = fields.text("client_order_id", event.client_order_id.as_str()).text(
        "venue_order_id",
        event.venue_order_id.as_str(),
    ).text("instrument_id", event.instrument_id.as_str()).text(
        "account_id",
        event.account_id.as_str(),
    ).natural("reconciliation", event.reconciliation as u64);
    assert(after@ =~= before + acceptance_fields(*event));
    after
}

/// What is told of the acceptance of an entry.
pub open spec fn entry_accepted_tree(
    order_list_id: Seq<char>,
    event: OrderAcceptance,
    draft: StrategyStateEntryDraft,
) -> JsonTree {
    JsonTree::Object(
        seq![("order_list_id"@, JsonTree::Text(order_list_id))] + acceptance_fields(event) + seq![
            ("entry"@, draft_tree(draft)),
        ],
    )
}

/// Returns the payload of the acceptance of an entry.
pub fn entry_accepted_payload(
    order_list_id: &str,
    event: &OrderAcceptance,
    draft: &StrategyStateEntryDraft,
) -> (payload: Json)
    ensures
        payload@ == entry_accepted_tree(order_list_id@, *event, *draft),
{
    let fields = add_acceptance(Fields::new().text("order_list_id", order_list_id), event).json(
        "entry",
        state_entry_draft_payload(draft),
    );
    assert(fields@ =~= seq![("order_list_id"@, JsonTree::Text(order_list_id@))]
        + acceptance_fields(*event) + seq![("entry"@, draft_tree(*draft))]);
    fields.into_json()
}

/// What is told of the outright refusal of an entry.
pub open spec fn entry_rejected_tree(
    order_list_id: Seq<char>,
    event: OrderRefusal,
    draft: StrategyStateEntryDraft,
    close_reason: Seq<char>,
) -> JsonTree {
    JsonTree::Object(
        seq![
            ("order_list_id"@, JsonTree::Text(order_list_id)),
            ("client_order_id"@, JsonTree::Text(event.client_order_id@)),
            ("reason"@, JsonTree::Text(event.reason@)),
            ("close_reason"@, JsonTree::Text(close_reason)),
            ("entry"@, draft_tree(draft)),
        ],
    )
}

/// Returns the payload of the outright refusal of an entry.
pub fn entry_rejected_payload(
    order_list_id: &str,
    event: &OrderRefusal,
    draft: &StrategyStateEntryDraft,
    close_reason: &str,
) -> (payload: Json)
    ensures
        payload@ == entry_rejected_tree(order_list_id@, *event, *draft, close_reason@),
{
    let fields = Fields::new().text("order_list_id", order_list_id).text(
        "client_order_id",
        event.client_order_id.as_str(),
    ).text("reason", event.reason.as_str()).text("close_reason", close_reason).json(
        "entry",
        state_entry_draft_payload(draft),
    );
    assert(fields@ =~= entry_rejected_tree(
        order_list_id@,
        *event,
        *draft,
        close_reason@,
    )->Object_0);
    fields.into_json()
}

/// What is told of the acceptance of a close.
pub open spec fn close_accepted_tree(
    event: OrderAcceptance,
    entry: StrategyStateEntry,
    close_order_list_id: Seq<char>,
    close_parent_order_id: Option<Seq<char>>,
    close_reason: Seq<char>,
    close_order_mode: Seq<char>,
) -> JsonTree {
    JsonTree::Object(
        seq![
            ("order_list_id"@, JsonTree::Text(entry.order_list_id@)),
            ("close_order_list_id"@, JsonTree::Text(close_order_list_id)),
            ("close_parent_order_id"@, text_or_null(close_parent_order_id)),
        ] + acceptance_fields(event) + seq![
            ("close_reason"@, JsonTree::Text(close_reason)),
            ("close_order_mode"@, JsonTree::Text(close_order_mode)),
            ("entry"@, entry_tree(entry)),
        ],
    )
}

/// Returns the payload of the acceptance of a close.
pub fn close_accepted_payload(
    event: &OrderAcceptance,
    entry: &StrategyStateEntry,
    close_order_list_id: &str,
    close_parent_order_id: &Option<String>,
    close_reason: &str,
    close_order_mode: &str,
) -> (payload: Json)
    ensures
        payload@ == close_accepted_tree(
            *event,
            *entry,
            close_order_list_id@,
            opt_text(*close_parent_order_id),
            close_reason@,
            close_order_mode@,
        ),
{
    let fields = Fields::new().text("order_list_id", entry.order_list_id.as_str()).text(
        "close_order_list_id",
        close_order_list_id,
    ).opt_text("close_parent_order_id", close_parent_order_id);
    let fields = add_acceptance(fields, event).text("close_reason", close_reason).text(
        "close_order_mode",
        close_order_mode,
    ).json("entry", state_entry_payload(entry));
    assert(fields@ =~= close_accepted_tree(
        *event,
        *entry,
        close_order_list_id@,
        opt_text(*close_parent_order_id),
        close_reason@,
        close_order_mode@,
    )->Object_0);
    fields.into_json()
}

/// What is told of a closed entry.
pub open spec fn entry_closed_tree(
    entry: StrategyStateEntry,
    close_order_list_id: Seq<char>,
    close_parent_order_id: Option<Seq<char>>,
) -> JsonTree {
    JsonTree::Object(
        seq![
            ("order_list_id"@, JsonTree::Text(entry.order_list_id@)),
            ("close_order_list_id"@, JsonTree::Text(close_order_list_id)),
            ("close_parent_order_id"@, text_or_null(close_parent_order_id)),
            ("entry"@, entry_tree(entry)),
        ],
    )
}

/// Returns the payload of a closed entry.
pub fn entry_closed_payload(
    entry: &StrategyStateEntry,
    close_order_list_id: &str,
    close_parent_order_id: &Option<String>,
) -> (payload: Json)
    ensures
        payload@ == entry_closed_tree(
            *entry,
            close_order_list_id@,
            opt_text(*close_parent_order_id),
        ),
{
    let fields = Fields::new().text("order_list_id", entry.order_list_id.as_str()).text(
        "close_order_list_id",
        close_order_list_id,
    ).opt_text("close_parent_order_id", close_parent_order_id).json(
        "entry",
        state_entry_payload(entry),
    );
    assert(fields@ =~= entry_closed_tree(
        *entry,
        close_order_list_id@,
        opt_text(*close_parent_order_id),
    )->Object_0);
    fields.into_json()
}

/// What is told of a canceled entry.
pub open spec fn entry_canceled_tree(entry: StrategyStateEntry, reason: Seq<char>) -> JsonTree {
    JsonTree::Object(
        seq![
            ("order_list_id"@, JsonTree::Text(entry.order_list_id@)),
            ("reason"@, JsonTree::Text(reason)),
            ("entry"@, entry_tree(entry)),
        ],
    )
}

/// Returns the payload of a canceled entry.
pub fn entry_canceled_payload(entry: &StrategyStateEntry, reason: &str) -> (payload: Json)
    ensures
        payload@ == entry_canceled_tree(*entry, reason@),
{
    let fields = Fields::new().text("order_list_id", entry.order_list_id.as_str()).text(
        "reason",
        reason,
    ).json("entry", state_entry_payload(entry));
    assert(fields@ =~= entry_canceled_tree(*entry, reason@)->Object_0);
    fields.into_json()
}

/// What is told of a close that is forgotten.
pub open spec fn close_cleared_tree(
    entry: StrategyStateEntry,
    close_order_list_id: Option<Seq<char>>,
    reason: Seq<char>,
) -> JsonTree {
    JsonTree::Object(
        seq![
            ("order_list_id"@, JsonTree::Text(entry.order_list_id@)),
            ("close_order_list_id"@, text_or_null(close_order_list_id)),
            ("reason"@, JsonTree::Text(reason)),
            ("entry"@, entry_tree(entry)),
        ],
    )
}

/// Returns the payload of a close that is forgotten.
pub fn close_cleared_payload(
    entry: &StrategyStateEntry,
    close_order_list_id: &Option<String>,
    reason: &str,
) -> (payload: Json)
    ensures
        payload@ == close_cleared_tree(*entry, opt_text(*close_order_list_id), reason@),
{
    let fields = Fields::new().text("order_list_id", entry.order_list_id.as_str()).opt_text(
        "close_order_list_id",
        close_order_list_id,
    ).text("reason", reason).json("entry", state_entry_payload(entry));
    assert(fields@ =~= close_cleared_tree(
        *entry,
        opt_text(*close_order_list_id),
        reason@,
    )->Object_0);
    fields.into_json()
}

} // verus!
