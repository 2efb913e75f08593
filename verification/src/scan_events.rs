//! What the scanner tells of one scan: its ledger record, its operator event and its line.
use vstd::prelude::*;

use crate::amount::Amount;
use crate::candidate_set::AlpacaOptionsCandidateProfile;
use crate::candidate_set::ScanCandidates;
use crate::candidate_set::ScanResult;
use crate::candidates::DebitSpreadCandidate;
use crate::candidates::IronCondorCandidate;
use crate::candidates::NakedOptionCandidate;
use crate::candidates::SpreadCandidate;
use crate::events::is_event;
use crate::events::OperatorEvent;
use crate::fields::counts_tree;
use crate::fields::counts_value;
use crate::fields::float;
use crate::fields::float_or_null;
use crate::fields::integer;
use crate::fields::natural;
use crate::fields::text_or_null;
use crate::fields::FieldTree;
use crate::fields::Fields;
use crate::json::Json;
use crate::json::JsonTree;
use crate::scanner_lines::counts_chars;
use crate::scanner_lines::format_counts;
use crate::text::count_text;
use crate::text::decimal;
use crate::text::opt_text;

verus! {

/// What an option model says of a naked short option.
#[derive(Clone, Copy, Debug)]
pub struct NakedOptionMetrics {
    /// Price of the underlying.
    pub underlying_price: Amount,
    /// Price of the underlying at which the position breaks even.
    pub breakeven: Amount,
    /// Probability of expiring in the money.
    pub strike_itm_probability: Amount,
    /// Probability of profit as read from delta.
    pub delta_pop_proxy: Amount,
    /// Probability of ending beyond the break-even price.
    pub breakeven_pop: Amount,
    /// Estimated probability of touching the strike.
    pub probability_of_touch_est: Amount,
    /// Expected move of the underlying.
    pub expected_move: Amount,
    /// Expected move relative to the price.
    pub expected_move_pct: Amount,
    /// Distance to the strike relative to the price.
    pub distance_to_strike_pct: Amount,
    /// Distance to the break-even price relative to the price.
    pub distance_to_breakeven_pct: Amount,
    /// Distance relative to the expected move.
    pub expected_move_coverage: Amount,
    /// Absolute delta.
    pub model_delta_abs: Amount,
    /// Gamma.
    pub model_gamma: Amount,
    /// Theta.
    pub model_theta: Amount,
    /// Vega.
    pub model_vega: Amount,
}

/// What is reported of the first naked short option beside the candidate itself.
#[derive(Clone, Copy, Debug)]
pub struct NakedOptionFigures {
    /// The account's buying power for options.
    pub account_options_buying_power: Option<Amount>,
    /// Premium relative to the strike, over a year.
    pub annualized_premium_yield: Option<Amount>,
    /// Metrics, where the scanner computed them.
    pub metrics: Option<NakedOptionMetrics>,
}

// ---------------------------------------------------------------------------------------------
// Ledger record
// ---------------------------------------------------------------------------------------------

/// The result that a scan is recorded with.
pub open spec fn result_label(result: ScanResult) -> Seq<char> {
    if result.candidates.count() == 0 {
        "no_candidate"@
    } else {
        "candidate"@
    }
}

/// The reason that a scan is recorded with.
pub open spec fn result_reason(result: ScanResult) -> Option<Seq<char>> {
    if result.candidates.count() == 0 {
        Some(result.no_candidate_reason@)
    } else {
        None
    }
}

/// The profile that a scan belongs to.
pub open spec fn scan_profile_fields(profile: AlpacaOptionsCandidateProfile) -> Seq<FieldTree> {
    seq![
        ("profile_id"@, JsonTree::Text(profile.id@)),
        ("profile_mode"@, JsonTree::Text(profile.mode.label())),
    ]
}

/// The fields that a scan is recorded with.
pub open spec fn scan_record_fields(
    profile: AlpacaOptionsCandidateProfile,
    result: ScanResult,
) -> Seq<FieldTree> {
    seq![
        ("underlying"@, JsonTree::Text(result.underlying@)),
        ("strategy"@, JsonTree::Text(result.candidates.request().strategy())),
        ("result"@, JsonTree::Text(result_label(result))),
        ("reason"@, text_or_null(result_reason(result))),
        ("contracts"@, natural(result.contract_count as u64)),
        ("snapshots"@, natural(result.snapshot_count as u64)),
        ("scoreable"@, natural(result.scoreable_count as u64)),
        ("rejections"@, counts_tree(result.rejection_counts@)),
    ] + scan_profile_fields(profile)
}

fn scan_record(profile: &AlpacaOptionsCandidateProfile, result: &ScanResult) -> (fields: Fields)
    ensures
        fields@ == scan_record_fields(*profile, *result),
{
    let fields = Fields::new().text("underlying", result.underlying.as_str()).text(
        "strategy",
        result.candidates.scan().strategy_name(),
    );
    let fields = if result.candidates.len() == 0 {
        fields.text("result", "no_candidate").text("reason", result.no_candidate_reason.as_str())
    } else {
        fields.text("result", "candidate").json("reason", Json::Null)
    };
    let fields = fields.count("contracts", result.contract_count).count(
        "snapshots",
        result.snapshot_count,
    ).count("scoreable", result.scoreable_count).json(
        "rejections",
        counts_value(&result.rejection_counts),
    ).text("profile_id", profile.id.as_str()).text("profile_mode", profile.mode.as_str());
    assert(fields@ =~= scan_record_fields(*profile, *result));
    fields
}

/// Returns the ledger record of a scan.
pub fn scanner_ledger_payload(profile: &AlpacaOptionsCandidateProfile, result: &ScanResult) -> (payload: Json)
    ensures
        payload@ == JsonTree::Object(scan_record_fields(*profile, *result)),
{
    scan_record(profile, result).into_json()
}

// ---------------------------------------------------------------------------------------------
// Operator event
// ---------------------------------------------------------------------------------------------

/// What is reported of a credit spread.
pub open spec fn credit_fields(best: SpreadCandidate) -> Seq<FieldTree> {
    seq![
        ("short_symbol"@, JsonTree::Text(best.short.symbol@)),
        ("long_symbol"@, JsonTree::Text(best.long.symbol@)),
        ("credit"@, float(best.credit)),
        ("return_on_risk"@, float(best.return_on_risk)),
        ("score"@, float(best.score)),
    ]
}

/// What is reported of an iron condor.
pub open spec fn condor_fields(best: IronCondorCandidate) -> Seq<FieldTree> {
    seq![
        ("short_put_symbol"@, JsonTree::Text(best.put.short.symbol@)),
        ("long_put_symbol"@, JsonTree::Text(best.put.long.symbol@)),
        ("short_call_symbol"@, JsonTree::Text(best.call.short.symbol@)),
        ("long_call_symbol"@, JsonTree::Text(best.call.long.symbol@)),
        ("credit"@, float(best.credit)),
        ("return_on_risk"@, float(best.return_on_risk)),
        ("score"@, float(best.score)),
    ]
}

/// What is reported of a debit spread.
pub open spec fn debit_fields(best: DebitSpreadCandidate) -> Seq<FieldTree> {
    seq![
        ("long_symbol"@, JsonTree::Text(best.long.symbol@)),
        ("short_symbol"@, JsonTree::Text(best.short.symbol@)),
        ("debit"@, float(best.debit)),
        ("reward_to_risk"@, float(best.reward_to_risk)),
        ("score"@, float(best.score)),
    ]
}

/// What is reported of the leg and the capital of a naked short option.
pub open spec fn naked_fields(best: NakedOptionCandidate, figures: NakedOptionFigures) -> Seq<
    FieldTree,
> {
    seq![
        ("short_symbol"@, JsonTree::Text(best.short.symbol@)),
        ("credit"@, float(best.credit)),
        ("delta_abs"@, float(best.short.delta_abs)),
        ("dte"@, integer(best.short.dte)),
        ("strike"@, float(best.short.strike)),
        ("spread_pct"@, float(best.short.spread_pct)),
        ("bid_size"@, natural(best.short.bid_size)),
        ("ask_size"@, natural(best.short.ask_size)),
        ("volume"@, natural(best.short.volume)),
        ("open_interest"@, natural(best.short.open_interest)),
        ("implied_volatility"@, float_or_null(best.short.implied_volatility)),
        ("account_options_buying_power"@, float_or_null(figures.account_options_buying_power)),
        (
            "capital_requirement_model"@,
            text_or_null(opt_text(best.capital_requirement_model)),
        ),
        ("estimated_buying_power_requirement"@, float(best.estimated_buying_power_requirement)),
        ("buying_power_usage_pct"@, float_or_null(best.buying_power_usage_pct)),
        ("return_on_buying_power"@, float(best.return_on_buying_power)),
        ("annualized_premium_yield"@, float_or_null(figures.annualized_premium_yield)),
    ]
}

/// One of some metrics, where there are any.
pub open spec fn metric(
    metrics: Option<NakedOptionMetrics>,
    pick: spec_fn(NakedOptionMetrics) -> Amount,
) -> JsonTree {
    match metrics {
        Some(found) => float(pick(found)),
        None => JsonTree::Null,
    }
}

/// What is reported of the metrics of a naked short option.
pub open spec fn metric_fields(metrics: Option<NakedOptionMetrics>) -> Seq<FieldTree> {
    seq![
        ("underlying_price"@, metric(metrics, |m: NakedOptionMetrics| m.underlying_price)),
        ("breakeven"@, metric(metrics, |m: NakedOptionMetrics| m.breakeven)),
        (
            "strike_itm_probability"@,
            metric(metrics, |m: NakedOptionMetrics| m.strike_itm_probability),
        ),
        ("delta_pop_proxy"@, metric(metrics, |m: NakedOptionMetrics| m.delta_pop_proxy)),
        ("breakeven_pop"@, metric(metrics, |m: NakedOptionMetrics| m.breakeven_pop)),
        (
            "probability_of_touch_est"@,
            metric(metrics, |m: NakedOptionMetrics| m.probability_of_touch_est),
        ),
        ("expected_move"@, metric(metrics, |m: NakedOptionMetrics| m.expected_move)),
        ("expected_move_pct"@, metric(metrics, |m: NakedOptionMetrics| m.expected_move_pct)),
        (
            "distance_to_strike_pct"@,
            metric(metrics, |m: NakedOptionMetrics| m.distance_to_strike_pct),
        ),
        (
            "distance_to_breakeven_pct"@,
            metric(metrics, |m: NakedOptionMetrics| m.distance_to_breakeven_pct),
        ),
        (
            "expected_move_coverage"@,
            metric(metrics, |m: NakedOptionMetrics| m.expected_move_coverage),
        ),
        ("model_delta_abs"@, metric(metrics, |m: NakedOptionMetrics| m.model_delta_abs)),
        ("model_gamma"@, metric(metrics, |m: NakedOptionMetrics| m.model_gamma)),
        ("model_theta"@, metric(metrics, |m: NakedOptionMetrics| m.model_theta)),
        ("model_vega"@, metric(metrics, |m: NakedOptionMetrics| m.model_vega)),
    ]
}

/// What is reported of the first candidate.
pub open spec fn best_fields(candidates: ScanCandidates, figures: NakedOptionFigures) -> Seq<
    FieldTree,
> {
    match candidates {
        ScanCandidates::Credit(_, list) => credit_fields(list@[0]),
        ScanCandidates::IronCondor(list) => condor_fields(list@[0]),
        ScanCandidates::Debit(_, list) => debit_fields(list@[0]),
        ScanCandidates::Naked(_, list) => naked_fields(list@[0], figures) + metric_fields(
            figures.metrics,
        ) + seq![("score"@, float(list@[0].score))],
    }
}

/// The fields of the operator event of a scan: its record where there is no candidate, else its
/// first candidate.
pub open spec fn diagnostic_fields(
    profile: AlpacaOptionsCandidateProfile,
    result: ScanResult,
    figures: NakedOptionFigures,
) -> Seq<FieldTree> {
    if result.candidates.count() == 0 {
        scan_record_fields(profile, result)
    } else {
        seq![
            ("underlying"@, JsonTree::Text(result.underlying@)),
            ("strategy"@, JsonTree::Text(result.candidates.request().strategy())),
            ("result"@, JsonTree::Text("candidate"@)),
        ] + best_fields(result.candidates, figures) + seq![
            ("rejections"@, counts_tree(result.rejection_counts@)),
        ] + scan_profile_fields(profile)
    }
}

fn add_credit(fields: Fields, best: &SpreadCandidate) -> (after: Fields)
    ensures
        after@ == fields@ + credit_fields(*best),
{
    let ghost before = fields@;
    let after = fields.text("short_symbol", best.short.symbol.as_str()).text(
        "long_symbol",
        best.long.symbol.as_str(),
    ).float("credit", best.credit).float("return_on_risk", best.return_on_risk).float(
        "score",
        best.score,
    );
    assert(after@ =~= before + credit_fields(*best));
    after
}

fn add_condor(fields: Fields, best: &IronCondorCandidate) -> (after: Fields)
    ensures
        after@ == fields@ + condor_fields(*best),
{
    let ghost before = fields@;
    let after = fields.text("short_put_symbol", best.put.short.symbol.as_str()).text(
        "long_put_symbol",
        best.put.long.symbol.as_str(),
    ).text("short_call_symbol", best.call.short.symbol.as_str()).text(
        "long_call_symbol",
        best.call.long.symbol.as_str(),
    ).float("credit", best.credit).float("return_on_risk", best.return_on_risk).float(
        "score",
        best.score,
    );
    assert(after@ =~= before + condor_fields(*best));
    after
}

fn add_debit(fields: Fields, best: &DebitSpreadCandidate) -> (after: Fields)
    ensures
        after@ == fields@ + debit_fields(*best),
{
    let ghost before = fields@;
    let after = fields.text("long_symbol", best.long.symbol.as_str()).text(
        "short_symbol",
        best.short.symbol.as_str(),
    ).float("debit", best.debit).float("reward_to_risk", best.reward_to_risk).float(
        "score",
        best.score,
    );
    assert(after@ =~= before + debit_fields(*best));
    after
}

fn add_naked(fields: Fields, best: &NakedOptionCandidate, figures: &NakedOptionFigures) -> (after: Fields)
    ensures
        after@ == fields@ + naked_fields(*best, *figures),
{
    let ghost before = fields@;
    let after = fields.text("short_symbol", best.short.symbol.as_str()).float(
        "credit",
        best.credit,
    ).float("delta_abs", best.short.delta_abs).integer("dte", best.short.dte).float(
        "strike",
        best.short.strike,
    ).float("spread_pct", best.short.spread_pct).natural("bid_size", best.short.bid_size).natural(
        "ask_size",
        best.short.ask_size,
    ).natural("volume", best.short.volume).natural("open_interest", best.short.open_interest);
    let after = after.opt_float("implied_volatility", best.short.implied_volatility).opt_float(
        "account_options_buying_power",
        figures.account_options_buying_power,
    ).opt_text("capital_requirement_model", &best.capital_requirement_model).float(
        "estimated_buying_power_requirement",
        best.estimated_buying_power_requirement,
    ).opt_float("buying_power_usage_pct", best.buying_power_usage_pct).float(
        "return_on_buying_power",
        best.return_on_buying_power,
    ).opt_float("annualized_premium_yield", figures.annualized_premium_yield);
    assert(after@ =~= before + naked_fields(*best, *figures));
    after
}

fn add_metrics(fields: Fields, metrics: &Option<NakedOptionMetrics>) -> (after: Fields)
    ensures
        after@ == fields@ + metric_fields(*metrics),
{
    let ghost before = fields@;
    let after = match metrics {
        Some(m) => fields.float("underlying_price", m.underlying_price).float(
            "breakeven",
            m.breakeven,
        ).float("strike_itm_probability", m.strike_itm_probability).float(
            "delta_pop_proxy",
            m.delta_pop_proxy,
        ).float("breakeven_pop", m.breakeven_pop).float(
            "probability_of_touch_est",
            m.probability_of_touch_est,
        ).float("expected_move", m.expected_move).float(
            "expected_move_pct",
            m.expected_move_pct,
        ).float("distance_to_strike_pct", m.distance_to_strike_pct).float(
            "distance_to_breakeven_pct",
            m.distance_to_breakeven_pct,
        ).float("expected_move_coverage", m.expected_move_coverage).float(
            "model_delta_abs",
            m.model_delta_abs,
        ).float("model_gamma", m.model_gamma).float("model_theta", m.model_theta).float(
            "model_vega",
            m.model_vega,
        ),
        None => fields.json("underlying_price", Json::Null).json("breakeven", Json::Null).json(
            "strike_itm_probability",
            Json::Null,
        ).json("delta_pop_proxy", Json::Null).json("breakeven_pop", Json::Null).json(
            "probability_of_touch_est",
            Json::Null,
        ).json("expected_move", Json::Null).json("expected_move_pct", Json::Null).json(
            "distance_to_strike_pct",
            Json::Null,
        ).json("distance_to_breakeven_pct", Json::Null).json(
            "expected_move_coverage",
            Json::Null,
        ).json("model_delta_abs", Json::Null).json("model_gamma", Json::Null).json(
            "model_theta",
            Json::Null,
        ).json("model_vega", Json::Null),
    };
    assert(after@ =~= before + metric_fields(*metrics));
    after
}

fn add_best(fields: Fields, candidates: &ScanCandidates, figures: &NakedOptionFigures) -> (after: Fields)
    requires
        candidates.count() > 0,
    ensures
        after@ == fields@ + best_fields(*candidates, *figures),
{
    let ghost before = fields@;
    match candidates {
        ScanCandidates::Credit(_, list) => add_credit(fields, &list[0]),
        ScanCandidates::IronCondor(list) => add_condor(fields, &list[0]),
        ScanCandidates::Debit(_, list) => add_debit(fields, &list[0]),
        ScanCandidates::Naked(_, list) => {
            let after = add_metrics(add_naked(fields, &list[0], figures), &figures.metrics).float(
                "score",
                list[0].score,
            );
            assert(after@ =~= before + best_fields(*candidates, *figures));
            after
        },
    }
}

/// Returns the operator event of a scan. `figures` are those of the first naked short option.
pub fn scanner_diagnostic_event(
    profile: &AlpacaOptionsCandidateProfile,
    result: &ScanResult,
    figures: &NakedOptionFigures,
) -> (event: OperatorEvent)
    ensures
        is_event(
            event,
            "scanner_diagnostic"@,
            diagnostic_fields(*profile, *result, *figures),
        ),
{
    if result.candidates.len() == 0 {
        return OperatorEvent {
            event_type: "scanner_diagnostic",
            payload: scanner_ledger_payload(profile, result),
        };
    }
    let fields = Fields::new().text("underlying", result.underlying.as_str()).text(
        "strategy",
        result.candidates.scan().strategy_name(),
    ).text("result", "candidate");
    let fields = add_best(fields, &result.candidates, figures).json(
        "rejections",
        counts_value(&result.rejection_counts),
    ).text("profile_id", profile.id.as_str()).text("profile_mode", profile.mode.as_str());
    assert(fields@ =~= diagnostic_fields(*profile, *result, *figures));
    OperatorEvent { event_type: "scanner_diagnostic", payload: fields.into_json() }
}

// ---------------------------------------------------------------------------------------------
// Line
// ---------------------------------------------------------------------------------------------

/// The numbers of the metrics of a naked short option, as they are printed.
#[derive(Clone, Debug)]
pub struct MetricTexts {
    /// Probability of profit, in percent.
    pub breakeven_pop: String,
    /// Probability of touching the strike, in percent.
    pub probability_of_touch: String,
    /// Distance to the break-even price, in percent.
    pub distance_to_breakeven: String,
    /// Coverage of the expected move.
    pub expected_move_coverage: String,
}

/// The numbers of a candidate, as they are printed.
#[derive(Clone, Debug)]
pub struct CandidateTexts {
    /// Credit or debit.
    pub premium: String,
    /// Return on risk, reward to risk or return on buying power, in percent.
    pub ratio: String,
    /// Score.
    pub score: String,
    /// Delta of a naked short option.
    pub delta: String,
    /// Buying power that a naked short option binds.
    pub requirement: String,
    /// Share of the account's buying power that a naked short option binds.
    pub usage: String,
    /// Metrics of a naked short option.
    pub metrics: Option<MetricTexts>,
}

/// The printed metrics.
pub open spec fn metric_chars(metrics: Option<MetricTexts>) -> Seq<char> {
    match metrics {
        Some(m) => " pop="@ + m.breakeven_pop@ + "% touch="@ + m.probability_of_touch@ + "% be_dist="@
            + m.distance_to_breakeven@ + "% em_cov="@ + m.expected_move_coverage@,
        None => Seq::empty(),
    }
}

/// The printed first candidate.
pub open spec fn best_chars(candidates: ScanCandidates, printed: CandidateTexts) -> Seq<char> {
    match candidates {
        ScanCandidates::Credit(_, list) => " short="@ + list@[0].short.symbol@ + " long="@
            + list@[0].long.symbol@ + " credit="@ + printed.premium@ + " ror="@ + printed.ratio@,
        ScanCandidates::IronCondor(list) => " short_put="@ + list@[0].put.short.symbol@
            + " long_put="@ + list@[0].put.long.symbol@ + " short_call="@
            + list@[0].call.short.symbol@ + " long_call="@ + list@[0].call.long.symbol@
            + " credit="@ + printed.premium@ + " ror="@ + printed.ratio@,
        ScanCandidates::Debit(_, list) => " long="@ + list@[0].long.symbol@ + " short="@
            + list@[0].short.symbol@ + " debit="@ + printed.premium@ + " rtr="@ + printed.ratio@,
        ScanCandidates::Naked(_, list) => " short="@ + list@[0].short.symbol@ + " credit="@
            + printed.premium@ + " delta="@ + printed.delta@ + metric_chars(printed.metrics)
            + " bpr=$"@ + printed.requirement@ + " bp_use="@ + printed.usage@ + " rbp="@
            + printed.ratio@,
    }
}

/// The line of a scan.
pub open spec fn scan_line_chars(result: ScanResult, printed: CandidateTexts) -> Seq<char> {
    let strategy = result.candidates.request().strategy();
    if result.candidates.count() == 0 {
        result.underlying@ + ": no_candidate strategy="@ + strategy + " reason="@
            + result.no_candidate_reason@ + " contracts="@ + decimal(result.contract_count as nat)
            + " snapshots="@ + decimal(result.snapshot_count as nat) + " scoreable="@ + decimal(
            result.scoreable_count as nat,
        ) + " rejections="@ + counts_chars(result.rejection_counts@)
    } else {
        result.underlying@ + ": candidate strategy="@ + strategy + best_chars(
            result.candidates,
            printed,
        ) + "% score="@ + printed.score@
    }
}

fn metric_text(metrics: &Option<MetricTexts>) -> (text: String)
    ensures
        text@ == metric_chars(*metrics),
{
    match metrics {
        Some(m) => " pop=".to_owned().concat(m.breakeven_pop.as_str()).concat("% touch=").concat(
            m.probability_of_touch.as_str(),
        ).concat("% be_dist=").concat(m.distance_to_breakeven.as_str()).concat("% em_cov=").concat(
            m.expected_move_coverage.as_str(),
        ),
        None => {
            let text = String::new();
            assert(text@ =~= metric_chars(*metrics));
            text
        },
    }
}

fn best_text(candidates: &ScanCandidates, printed: &CandidateTexts) -> (text: String)
    requires
        candidates.count() > 0,
    ensures
        text@ == best_chars(*candidates, *printed),
{
    match candidates {
        ScanCandidates::Credit(_, list) => " short=".to_owned().concat(
            list[0].short.symbol.as_str(),
        ).concat(" long=").concat(list[0].long.symbol.as_str()).concat(" credit=").concat(
            printed.premium.as_str(),
        ).concat(" ror=").concat(printed.ratio.as_str()),
        ScanCandidates::IronCondor(list) => " short_put=".to_owned().concat(
            list[0].put.short.symbol.as_str(),
        ).concat(" long_put=").concat(list[0].put.long.symbol.as_str()).concat(
            " short_call=",
        ).concat(list[0].call.short.symbol.as_str()).concat(" long_call=").concat(
            list[0].call.long.symbol.as_str(),
        ).concat(" credit=").concat(printed.premium.as_str()).concat(" ror=").concat(
            printed.ratio.as_str(),
        ),
        ScanCandidates::Debit(_, list) => " long=".to_owned().concat(
            list[0].long.symbol.as_str(),
        ).concat(" short=").concat(list[0].short.symbol.as_str()).concat(" debit=").concat(
            printed.premium.as_str(),
        ).concat(" rtr=").concat(printed.ratio.as_str()),
        ScanCandidates::Naked(_, list) => " short=".to_owned().concat(
            list[0].short.symbol.as_str(),
        ).concat(" credit=").concat(printed.premium.as_str()).concat(" delta=").concat(
            printed.delta.as_str(),
        ).concat(metric_text(&printed.metrics).as_str()).concat(" bpr=$").concat(
            printed.requirement.as_str(),
        ).concat(" bp_use=").concat(printed.usage.as_str()).concat(" rbp=").concat(
            printed.ratio.as_str(),
        ),
    }
}

/// Writes the line of a scan. `printed` holds the numbers of its first candidate.
pub fn scan_line(result: &ScanResult, printed: &CandidateTexts) -> (line: String)
    ensures
        line@ == scan_line_chars(*result, *printed),
{
    let strategy = result.candidates.scan().strategy_name();
    if result.candidates.len() == 0 {
        result.underlying.as_str().to_owned().concat(": no_candidate strategy=").concat(
            strategy,
        ).concat(" reason=").concat(result.no_candidate_reason.as_str()).concat(
            " contracts=",
        ).concat(count_text(result.contract_count).as_str()).concat(" snapshots=").concat(
            count_text(result.snapshot_count).as_str(),
        ).concat(" scoreable=").concat(count_text(result.scoreable_count).as_str()).concat(
            " rejections=",
        ).concat(format_counts(&result.rejection_counts).as_str())
    } else {
        result.underlying.as_str().to_owned().concat(": candidate strategy=").concat(
            strategy,
        ).concat(best_text(&result.candidates, printed).as_str()).concat("% score=").concat(
            printed.score.as_str(),
        )
    }
}

/// A scan is told as one with a candidate exactly when it adds an entry to the ranking, in its
/// record, its event and its report alike.
pub proof fn scans_are_told_alike(
    profile: AlpacaOptionsCandidateProfile,
    result: ScanResult,
    figures: NakedOptionFigures,
    report: crate::candidate_set::OptionsScanReport,
)
    requires
        crate::candidate_set::reports(report, profile, result),
    ensures
        scan_record_fields(profile, result)[2] == ("result"@, JsonTree::Text(report.outcome.label())),
        diagnostic_fields(profile, result, figures)[2] == ("result"@, JsonTree::Text(
            report.outcome.label(),
        )),
        scan_record_fields(profile, result)[3] == ("reason"@, text_or_null(opt_text(report.reason))),
{
}

} // verus!
