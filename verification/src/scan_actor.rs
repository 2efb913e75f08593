//! The actor that scans option chains: which series it follows, and what it last found.
use vstd::prelude::*;

use crate::calendar::date_chars;
use crate::calendar::date_of_nanos;
use crate::calendar::date_text;
use crate::calendar::CalendarDate;
use crate::calendar::EPOCH_DAY;
use crate::calendar::UtcInstant;
use crate::candidate_set::recorded_in_turn;
use crate::candidate_set::AlpacaOptionsCandidateProfile;
use crate::candidate_set::OptionsCandidateSet;
use crate::candidate_set::ScanResult;
use crate::chain::fresh_positions;
use crate::chain::named_before;
use crate::chain::scan_date_from_timestamp;
use crate::chain::scan_option_chain_opportunities;
use crate::chain::subscribe_for_instrument;
use crate::chain::OptionChainCandidateInput;
use crate::chain::OptionChainOpportunityScanConfig;
use crate::chain::OptionSeries;
use crate::chain::SeriesInstrument;
use crate::events::is_event;
use crate::events::opportunity_event_payload;
use crate::events::opportunity_fields;
use crate::events::OperatorEvent;
use crate::text::texts;
use crate::text_set::TextSet;

verus! {

/// Actor configuration for read-only option-chain opportunity scans.
#[derive(Clone, Debug)]
pub struct OptionChainOpportunityScanActorConfig {
    /// Option series subscriptions.
    pub series: Vec<OptionSeries>,
    /// Optional snapshot interval in milliseconds.
    pub snapshot_interval_ms: Option<u64>,
    /// Whether to request Alpaca option instruments before subscribing to option-chain slices.
    pub bootstrap_instruments: bool,
    /// Candidate scan settings.
    pub scan: OptionChainOpportunityScanConfig,
}

impl Default for OptionChainOpportunityScanActorConfig {
    fn default() -> (config: OptionChainOpportunityScanActorConfig)
        ensures
            config.series@.len() == 0,
            config.snapshot_interval_ms == Some(5_000u64),
            !config.bootstrap_instruments,
            config.scan.spread_kinds@ == seq![crate::candidates::CreditSpreadKind::Put],
            !config.scan.iron_condor_enabled,
            config.scan.debit_kinds@.len() == 0,
            config.scan.naked_kinds@.len() == 0,
            config.scan.quantity == 1,
    {
        OptionChainOpportunityScanActorConfig {
            series: Vec::new(),
            snapshot_interval_ms: Some(5_000),
            bootstrap_instruments: false,
            scan: OptionChainOpportunityScanConfig::default(),
        }
    }
}

/// Read-only actor that ranks option-chain candidates and emits operator evidence.
#[derive(Clone, Debug)]
pub struct OptionChainOpportunityScanActor {
    /// Configuration.
    pub config: OptionChainOpportunityScanActorConfig,
    /// IDs of the subscribed series.
    pub subscribed_series: TextSet,
    /// Most recent opportunity set.
    pub latest_opportunities: Option<OptionsCandidateSet>,
}

/// What an actor does about its series when it starts; series are named by position.
#[derive(Clone, Debug)]
pub enum SeriesStart {
    /// The instruments of the series are requested.
    RequestInstruments(Vec<usize>),
    /// The option chains of the series are subscribed to.
    Subscribe(Vec<usize>),
}

/// Whether one of the first `n` series has an ID.
pub open spec fn listed_before(series: Seq<OptionSeries>, id: Seq<char>, n: int) -> bool {
    exists|k: int| 0 <= k < n && k < series.len() && (#[trigger] series[k]).id@ == id
}

/// The positions among the first `n` series of those that were not subscribed, each ID at its first
/// position.
pub open spec fn unsubscribed_positions(
    series: Seq<OptionSeries>,
    subscribed: TextSet,
    n: nat,
) -> Seq<usize>
    decreases n,
{
    if n == 0 || n > series.len() {
        Seq::empty()
    } else {
        let earlier = unsubscribed_positions(series, subscribed, (n - 1) as nat);
        let id = series[n - 1].id@;
        if !subscribed.has(id) && !listed_before(series, id, n - 1) {
            earlier.push((n - 1) as usize)
        } else {
            earlier
        }
    }
}

/// What the instruments of a series are requested by.
#[derive(Clone, Debug)]
pub struct SeriesRequest {
    /// Underlying symbol.
    pub underlying: String,
    /// Expiration date.
    pub expiration_date: String,
}

/// Returns what the instruments of a series are requested by.
pub fn series_request(series: &OptionSeries) -> (request: SeriesRequest)
    ensures
        request.underlying@ == series.underlying@,
        exists|date: CalendarDate|
            date.valid() && #[trigger] date.day_number() == series.expiration_ns as int
                / 86_400_000_000_000 + EPOCH_DAY && request.expiration_date@ == date_chars(date),
{
    let date = date_of_nanos(series.expiration_ns);
    assert(date.valid() && date.day_number() == series.expiration_ns as int / 86_400_000_000_000
        + EPOCH_DAY);
    SeriesRequest {
        underlying: series.underlying.clone(),
        expiration_date: date_text(date),
    }
}

impl OptionChainOpportunityScanActor {
    /// Whether the subscriptions are in order.
    pub open spec fn wf(self) -> bool {
        self.subscribed_series.wf()
    }

    /// Creates a new read-only option-chain opportunity scan actor.
    #[must_use]
    pub fn new(config: OptionChainOpportunityScanActorConfig) -> (actor: OptionChainOpportunityScanActor)
        ensures
            actor.wf(),
            actor.config == config,
            actor.subscribed_series@.len() == 0,
            actor.latest_opportunities is None,
    {
        OptionChainOpportunityScanActor {
            config,
            subscribed_series: TextSet::new(),
            latest_opportunities: None,
        }
    }

    /// Returns the most recent opportunity set produced by this actor.
    #[must_use]
    pub fn latest_opportunities(&self) -> (found: Option<&OptionsCandidateSet>)
        ensures
            match found {
                Some(set) => self.latest_opportunities == Some(*set),
                None => self.latest_opportunities is None,
            },
    {
        match &self.latest_opportunities {
            Some(set) => Some(set),
            None => None,
        }
    }

    /// Starts the actor: its instruments are requested first, or its series are subscribed to.
    pub fn on_start(&mut self) -> (start: SeriesStart)
        requires
            old(self).wf(),
        ensures
            final(self).wf(),
            final(self).config == old(self).config,
            final(self).latest_opportunities == old(self).latest_opportunities,
            match start {
                SeriesStart::RequestInstruments(positions) => {
                    &&& old(self).config.bootstrap_instruments
                    &&& positions@ == Seq::new(old(self).config.series@.len(), |i: int| i as usize)
                    &&& final(self).subscribed_series == old(self).subscribed_series
                },
                SeriesStart::Subscribe(positions) => {
                    &&& !old(self).config.bootstrap_instruments
                    &&& positions@ == unsubscribed_positions(
                        old(self).config.series@,
                        old(self).subscribed_series,
                        old(self).config.series@.len(),
                    )
                    &&& forall|x: Seq<char>|
                        #[trigger] final(self).subscribed_series.has(x) <==> old(self).subscribed_series.has(x) || listed_before(
                            old(self).config.series@,
                            x,
                            old(self).config.series@.len() as int,
                        )
                },
            },
    {
        let n: usize = self.config.series.len();
        let mut positions: Vec<usize> = Vec::new();
        if self.config.bootstrap_instruments {
            for i in 0..n
                invariant
                    positions@ == Seq::new(i as nat, |k: int| k as usize),
            {
                positions.push(i);
                assert(positions@ =~= Seq::new((i + 1) as nat, |k: int| k as usize));
            }
            return SeriesStart::RequestInstruments(positions);
        }
        let ghost series = self.config.series@;
        let ghost before = self.subscribed_series;
        for i in 0..n
            invariant
                n == series.len(),
                series == self.config.series@,
                self.config == old(self).config,
                self.latest_opportunities == old(self).latest_opportunities,
                self.subscribed_series.wf(),
                before == old(self).subscribed_series,
                forall|x: Seq<char>|
                    #[trigger] self.subscribed_series.has(x) <==> before.has(x) || listed_before(
                        series,
                        x,
                        i as int,
                    ),
                positions@ == unsubscribed_positions(series, before, i as nat),
        {
            let ghost middle = self.subscribed_series;
            if self.subscribed_series.insert(self.config.series[i].id.clone()) {
                positions.push(i);
            }
            proof {
                let id = series[i as int].id@;
                assert forall|x: Seq<char>|
                    #[trigger] self.subscribed_series.has(x) <==> before.has(x) || listed_before(
                        series,
                        x,
                        i + 1,
                    ) by {
                    assert(middle.has(x) <==> before.has(x) || listed_before(series, x, i as int));
                    if x == id {
                        assert(series[i as int].id@ == x);
                    }
                }
                assert(middle.has(id) <==> before.has(id) || listed_before(series, id, i as int));
            }
        }
        SeriesStart::Subscribe(positions)
    }

    /// Takes an instrument: where instruments are requested first, the series that it belongs to are
    /// subscribed to; returns the positions of those that are new.
    pub fn on_instrument(&mut self, instrument: &SeriesInstrument) -> (fresh: Vec<usize>)
        requires
            old(self).wf(),
        ensures
            final(self).wf(),
            final(self).config == old(self).config,
            final(self).latest_opportunities == old(self).latest_opportunities,
            !old(self).config.bootstrap_instruments ==> fresh@.len() == 0
                && final(self).subscribed_series == old(self).subscribed_series,
            old(self).config.bootstrap_instruments ==> {
                let series = old(self).config.series@;
                &&& fresh@ == fresh_positions(
                    series,
                    *instrument,
                    old(self).subscribed_series,
                    series.len(),
                )
                &&& forall|x: Seq<char>|
                    #[trigger] final(self).subscribed_series.has(x) <==> old(self).subscribed_series.has(x) || named_before(series, *instrument, x, series.len() as int)
            },
    {
        if !self.config.bootstrap_instruments {
            return Vec::new();
        }
        subscribe_for_instrument(&self.config.series, instrument, &mut self.subscribed_series)
    }

    /// Takes the scans of one option-chain slice, keeps what they found and returns its event.
    pub fn on_option_chain(
        &mut self,
        series_id: &str,
        input: &OptionChainCandidateInput,
        ts_event: u64,
        now: UtcInstant,
        profile: &AlpacaOptionsCandidateProfile,
        results: Vec<ScanResult>,
    ) -> (event: OperatorEvent)
        requires
            now.valid(),
        ensures
            final(self).config == old(self).config,
            final(self).subscribed_series == old(self).subscribed_series,
            final(self).latest_opportunities matches Some(set) && {
                &&& set.wf()
                &&& exists|steps: Seq<OptionsCandidateSet>|
                    recorded_in_turn(
                        steps,
                        Seq::new(results@.len(), |i: int| *profile),
                        results@,
                    ) && #[trigger] steps.last() == set
                &&& exists|date: CalendarDate|
                    #![trigger date.valid()]
                    date.valid() && set.trade_date@ == date_chars(date) && is_scan_date(
                        date,
                        ts_event,
                        now,
                    )
                &&& is_event(
                    event,
                    "option_chain_opportunity_scan"@,
                    opportunity_fields(series_id@, *input, set),
                )
            },
    {
        let date = scan_date_from_timestamp(ts_event, now);
        assert(is_scan_date(date, ts_event, now));
        let set = scan_option_chain_opportunities(date_text(date).as_str(), profile, results);
        let payload = opportunity_event_payload(series_id, input, &set);
        self.latest_opportunities = Some(set);
        OperatorEvent { event_type: "option_chain_opportunity_scan", payload }
    }

    /// Stops the actor; returns the IDs of the series to unsubscribe from.
    pub fn on_stop(&mut self) -> (unsubscribe: Vec<String>)
        ensures
            final(self).wf(),
            final(self).config == old(self).config,
            final(self).latest_opportunities == old(self).latest_opportunities,
            final(self).subscribed_series@.len() == 0,
            texts(unsubscribe@) == old(self).subscribed_series@,
    {
        let unsubscribe = self.subscribed_series.to_texts();
        self.subscribed_series = TextSet::new();
        unsubscribe
    }
}

/// Whether a date is that of a scan: the date of the slice, or today where the slice's clock stands
/// before 2000.
pub open spec fn is_scan_date(date: CalendarDate, ts_event: u64, now: UtcInstant) -> bool {
    exists|slice_date: CalendarDate|
        #![trigger slice_date.valid()]
        slice_date.valid() && slice_date.day_number() == ts_event as int / 86_400_000_000_000
            + EPOCH_DAY && if slice_date.year < 2000 {
            date.day_number() == now.utc_day()
        } else {
            date == slice_date
        }
}

/// A series is never subscribed to twice: one that is subscribed to is in no list of new ones.
pub proof fn series_are_subscribed_once(
    series: Seq<OptionSeries>,
    subscribed: TextSet,
    n: nat,
    at: int,
)
    requires
        n <= series.len() <= usize::MAX,
        0 <= at < unsubscribed_positions(series, subscribed, n).len(),
    ensures
        ({
            let positions = unsubscribed_positions(series, subscribed, n);
            &&& positions[at] < n
            &&& !subscribed.has(series[positions[at] as int].id@)
            &&& forall|k: int|
                0 <= k < positions[at] ==> (#[trigger] series[k]).id@ != series[positions[at] as int].id@
        }),
    decreases n,
{
    let earlier = unsubscribed_positions(series, subscribed, (n - 1) as nat);
    if at < earlier.len() {
        series_are_subscribed_once(series, subscribed, (n - 1) as nat, at);
    } else {
        let id = series[n - 1].id@;
        assert forall|k: int| 0 <= k < n - 1 implies (#[trigger] series[k]).id@ != id by {
            assert(!listed_before(series, id, n - 1));
        }
    }
}

} // verus!
