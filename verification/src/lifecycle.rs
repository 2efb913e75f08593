//! Assignment, exercise, and expiration risk.
use vstd::prelude::*;

use crate::admission::opt_block;
use crate::admission::plain_block;
use crate::admission::BlockView;
use crate::admission::SubmissionBlock;
use crate::broker::AlpacaActivity;
use crate::calendar::age_hours;
use crate::calendar::date_in;
use crate::calendar::elapsed_hours;
use crate::calendar::instant_in;
use crate::calendar::instant_text;
use crate::calendar::midnight;
use crate::calendar::midnight_of;
use crate::calendar::parse_date;
use crate::calendar::parse_instant;
use crate::calendar::rfc3339_writing;
use crate::calendar::utc_day_of;
use crate::calendar::UtcInstant;
use crate::entry::SelectedOptionsEntry;
use crate::symbol::days_to_expiration;
use crate::symbol::expiration_days;
use crate::text::copy_opt;
use crate::text::copy_texts;
use crate::text::decimal;
use crate::text::decimal_text;
use crate::text::opt_text;
use crate::text::same_text;
use crate::text::signed_decimal;
use crate::text::signed_text;
use crate::text::slices;
use crate::text::texts;
use crate::text::to_upper;
use crate::text::trim;
use crate::text::trimmed;
use crate::text::upper;
use crate::text_set::ascending;
use crate::text_set::TextSet;

verus! {

/// Stable Alpaca option lifecycle event kind.
#[derive(Clone, Copy, Debug, PartialEq, Eq, Structural)]
pub enum OptionLifecycleEventKind {
    /// Option assignment activity.
    Assignment,
    /// Option exercise activity.
    Exercise,
    /// Option expiration activity.
    Expiration,
}

/// The kind of an account-activity type.
pub open spec fn kind_of_activity(value: Seq<char>) -> Option<OptionLifecycleEventKind> {
    let label = upper(trimmed(value));
    if label == "OPASN"@ {
        Some(OptionLifecycleEventKind::Assignment)
    } else if label == "OPEXC"@ {
        Some(OptionLifecycleEventKind::Exercise)
    } else if label == "OPEXP"@ {
        Some(OptionLifecycleEventKind::Expiration)
    } else {
        None
    }
}

impl OptionLifecycleEventKind {
    /// The account-activity type.
    pub open spec fn activity_chars(self) -> Seq<char> {
        match self {
            OptionLifecycleEventKind::Assignment => "OPASN"@,
            OptionLifecycleEventKind::Exercise => "OPEXC"@,
            OptionLifecycleEventKind::Expiration => "OPEXP"@,
        }
    }

    /// The operator label.
    pub open spec fn label(self) -> Seq<char> {
        match self {
            OptionLifecycleEventKind::Assignment => "assignment"@,
            OptionLifecycleEventKind::Exercise => "exercise"@,
            OptionLifecycleEventKind::Expiration => "expiration"@,
        }
    }

    /// Returns the Alpaca account-activity type.
    #[must_use]
    pub fn activity_type(self) -> (text: &'static str)
        ensures
            text@ == self.activity_chars(),
    {
        match self {
            OptionLifecycleEventKind::Assignment => "OPASN",
            OptionLifecycleEventKind::Exercise => "OPEXC",
            OptionLifecycleEventKind::Expiration => "OPEXP",
        }
    }

    /// Returns the stable operator label.
    #[must_use]
    pub fn as_str(self) -> (label: &'static str)
        ensures
            label@ == self.label(),
    {
        match self {
            OptionLifecycleEventKind::Assignment => "assignment",
            OptionLifecycleEventKind::Exercise => "exercise",
            OptionLifecycleEventKind::Expiration => "expiration",
        }
    }

    /// Returns the kind of an account-activity type.
    pub fn from_activity_type(value: &str) -> (kind: Option<OptionLifecycleEventKind>)
        ensures
            kind == kind_of_activity(value@),
    {
        let label = to_upper(trim(value));
        if same_text(label.as_str(), "OPASN") {
            Some(OptionLifecycleEventKind::Assignment)
        } else if same_text(label.as_str(), "OPEXC") {
            Some(OptionLifecycleEventKind::Exercise)
        } else if same_text(label.as_str(), "OPEXP") {
            Some(OptionLifecycleEventKind::Expiration)
        } else {
            None
        }
    }

    /// Returns whether such an event blocks new entries.
    pub fn blocks_new_entries(self) -> (blocks: bool)
        ensures
            blocks == (self is Assignment || self is Exercise),
    {
        matches!(self, OptionLifecycleEventKind::Assignment | OptionLifecycleEventKind::Exercise)
    }
}

/// Every lifecycle kind is read back from its own activity type.
pub proof fn activity_types_read_back(kind: OptionLifecycleEventKind)
    ensures
        kind_of_activity(kind.activity_chars()) == Some(kind),
{
    reveal_strlit("OPASN");
    reveal_strlit("OPEXC");
    reveal_strlit("OPEXP");
    let text = kind.activity_chars();
    assert(text.len() == 5);
    assert(!crate::text::is_space(text[0]));
    assert(!crate::text::is_space(text[4]));
    assert(crate::text::trimmed_start(text) == text);
    assert(crate::text::trimmed_end(text) == text);
    assert(upper(text) =~= text);
    assert("OPASN"@[2] == 'A');
    assert("OPEXC"@[4] == 'C');
    assert("OPEXP"@[4] == 'P');
}

/// Runtime lifecycle risk configuration.
#[derive(Clone, Copy, Debug, PartialEq, Eq, Structural)]
pub struct OptionLifecycleRiskConfig {
    /// Poll interval for account lifecycle activities. Zero disables background polling.
    pub poll_secs: u64,
    /// Account-activity lookback used by startup and daemon polls.
    pub activity_lookback_hours: u64,
    /// How long assignment/exercise activities block new entries.
    pub activity_block_hours: u64,
    /// Calendar DTE threshold that blocks new entries. Negative disables the block.
    pub expiration_entry_block_days: i64,
}

impl Default for OptionLifecycleRiskConfig {
    fn default() -> (config: OptionLifecycleRiskConfig)
        ensures
            config.poll_secs == 300,
            config.activity_lookback_hours == 72,
            config.activity_block_hours == 24,
            config.expiration_entry_block_days == 0,
    {
        OptionLifecycleRiskConfig {
            poll_secs: 300,
            activity_lookback_hours: 72,
            activity_block_hours: 24,
            expiration_entry_block_days: 0,
        }
    }
}

/// Normalized lifecycle activity evidence.
#[derive(Clone, Debug, PartialEq, Eq)]
pub struct OptionLifecycleEvent {
    /// Stable event kind.
    pub kind: OptionLifecycleEventKind,
    /// Alpaca activity ID.
    pub id: Option<String>,
    /// Alpaca option symbol.
    pub symbol: Option<String>,
    /// Activity timestamp when available.
    pub occurred_at_utc: Option<UtcInstant>,
    /// Raw activity date for date-only activities.
    pub activity_date: Option<String>,
    /// Activity quantity.
    pub quantity: Option<String>,
}

/// Whether the time of every event is one that the date library holds.
pub open spec fn times_valid(events: Seq<OptionLifecycleEvent>) -> bool {
    forall|i: int|
        0 <= i < events.len() ==> ((#[trigger] events[i]).occurred_at_utc matches Some(time)
            ==> time.valid())
}

/// The time of an activity: its transaction time, else the start of its date.
pub open spec fn activity_time(activity: AlpacaActivity) -> Option<UtcInstant> {
    let stamped = match activity.transaction_time {
        Some(text) => instant_in(text@),
        None => None,
    };
    match stamped {
        Some(time) => Some(time),
        None => match activity.date {
            Some(text) => match date_in(text@) {
                Some(date) => Some(midnight(date)),
                None => None,
            },
            None => None,
        },
    }
}

/// The lifecycle event of an activity, if it is one.
pub open spec fn event_of(activity: AlpacaActivity) -> Option<OptionLifecycleEvent> {
    match activity.activity_type {
        Some(text) => match kind_of_activity(text@) {
            Some(kind) => Some(
                OptionLifecycleEvent {
                    kind,
                    id: activity.id,
                    symbol: activity.symbol,
                    occurred_at_utc: activity_time(activity),
                    activity_date: activity.date,
                    quantity: activity.qty,
                },
            ),
            None => None,
        },
        None => None,
    }
}

/// The lifecycle events of some activities, in order.
pub open spec fn events_of(activities: Seq<AlpacaActivity>) -> Seq<OptionLifecycleEvent>
    decreases activities.len(),
{
    if activities.len() == 0 {
        Seq::empty()
    } else {
        let earlier = events_of(activities.drop_last());
        match event_of(activities.last()) {
            Some(event) => earlier.push(event),
            None => earlier,
        }
    }
}

fn parse_activity_timestamp(value: &Option<String>) -> (time: Option<UtcInstant>)
    ensures
        time == match *value {
            Some(text) => instant_in(text@),
            None => None,
        },
        time matches Some(found) ==> found.valid(),
{
    match value {
        Some(text) => parse_instant(text.as_str()),
        None => None,
    }
}

fn parse_activity_date(value: &Option<String>) -> (time: Option<UtcInstant>)
    ensures
        time == match *value {
            Some(text) => match date_in(text@) {
                Some(date) => Some(midnight(date)),
                None => None,
            },
            None => None,
        },
        time matches Some(found) ==> found.valid(),
{
    match value {
        Some(text) => match parse_date(text.as_str()) {
            Some(date) => midnight_of(date),
            None => None,
        },
        None => None,
    }
}

/// Returns the lifecycle event of an activity, if it is one.
pub fn lifecycle_event_from_activity(activity: &AlpacaActivity) -> (event: Option<
    OptionLifecycleEvent,
>)
    ensures
        event == event_of(*activity),
        event matches Some(found) ==> (found.occurred_at_utc matches Some(time) ==> time.valid()),
{
    let kind = match &activity.activity_type {
        Some(text) => match OptionLifecycleEventKind::from_activity_type(text.as_str()) {
            Some(kind) => kind,
            None => {
                return None;
            },
        },
        None => {
            return None;
        },
    };
    let occurred_at_utc = match parse_activity_timestamp(&activity.transaction_time) {
        Some(time) => Some(time),
        None => parse_activity_date(&activity.date),
    };
    Some(
        OptionLifecycleEvent {
            kind,
            id: copy_opt(&activity.id),
            symbol: copy_opt(&activity.symbol),
            occurred_at_utc,
            activity_date: copy_opt(&activity.date),
            quantity: copy_opt(&activity.qty),
        },
    )
}

/// Converts Alpaca account activities into normalized option lifecycle events.
#[must_use]
pub fn lifecycle_events_from_activities(activities: &Vec<AlpacaActivity>) -> (events: Vec<
    OptionLifecycleEvent,
>)
    ensures
        events@ == events_of(activities@),
        times_valid(events@),
{
    let mut events: Vec<OptionLifecycleEvent> = Vec::new();
    let n: usize = activities.len();
    for i in 0..n
        invariant
            n == activities@.len(),
            events@ == events_of(activities@.take(i as int)),
            times_valid(events@),
    {
        proof {
            let next = activities@.take(i + 1);
            assert(next.drop_last() =~= activities@.take(i as int));
            assert(next.last() == activities@[i as int]);
        }
        match lifecycle_event_from_activity(&activities[i]) {
            Some(event) => {
                events.push(event);
            },
            None => {},
        }
    }
    assert(activities@.take(n as int) =~= activities@);
    events
}

// ---------------------------------------------------------------------------------------------
// Blocks
// ---------------------------------------------------------------------------------------------

/// Whether an event blocks new entries: an assignment or exercise that is recent or without a time.
pub open spec fn event_blocks(
    config: OptionLifecycleRiskConfig,
    event: OptionLifecycleEvent,
    now: UtcInstant,
) -> bool {
    &&& event.kind is Assignment || event.kind is Exercise
    &&& event.occurred_at_utc matches Some(time) ==> age_hours(now, time) <= config.activity_block_hours
}

/// An optional text, or `unknown`.
pub open spec fn or_unknown(value: Option<String>) -> Seq<char> {
    match value {
        Some(text) => text@,
        None => "unknown"@,
    }
}

/// The line that reports a blocking event.
pub open spec fn event_line(event: OptionLifecycleEvent, now: UtcInstant) -> Seq<char> {
    event.kind.label() + " activity id="@ + or_unknown(event.id) + " symbol="@ + or_unknown(
        event.symbol,
    ) + " age_hours="@ + (match event.occurred_at_utc {
        Some(time) => decimal(age_hours(now, time) as nat),
        None => "unknown"@,
    })
}

/// Whether a line reports a blocking event among some events.
pub open spec fn reports_block(
    config: OptionLifecycleRiskConfig,
    events: Seq<OptionLifecycleEvent>,
    now: UtcInstant,
    line: Seq<char>,
) -> bool {
    exists|i: int|
        0 <= i < events.len() && event_blocks(config, #[trigger] events[i], now) && event_line(
            events[i],
            now,
        ) == line
}

fn text_or_unknown(value: &Option<String>) -> (text: String)
    ensures
        text@ == or_unknown(*value),
{
    match value {
        Some(text) => text.clone(),
        None => "unknown".to_owned(),
    }
}

fn blocking_line(event: &OptionLifecycleEvent, now: UtcInstant) -> (line: String)
    requires
        now.valid(),
        event.occurred_at_utc matches Some(time) ==> time.valid(),
    ensures
        line@ == event_line(*event, now),
{
    let age: String = match event.occurred_at_utc {
        Some(time) => decimal_text(elapsed_hours(now, time)),
        None => "unknown".to_owned(),
    };
    event.kind.as_str().to_owned().concat(" activity id=").concat(
        text_or_unknown(&event.id).as_str(),
    ).concat(" symbol=").concat(text_or_unknown(&event.symbol).as_str()).concat(
        " age_hours=",
    ).concat(age.as_str())
}

/// Returns the account-level lifecycle reasons that block new entries, each once and in order.
pub fn account_activity_blocks(
    config: &OptionLifecycleRiskConfig,
    events: &Vec<OptionLifecycleEvent>,
    now: UtcInstant,
) -> (blocks: Vec<String>)
    requires
        now.valid(),
        times_valid(events@),
    ensures
        ascending(texts(blocks@)),
        forall|line: Seq<char>|
            #[trigger] texts(blocks@).contains(line) <==> reports_block(*config, events@, now, line),
{
    let mut lines = TextSet::new();
    let n: usize = events.len();
    for i in 0..n
        invariant
            n == events@.len(),
            now.valid(),
            times_valid(events@),
            lines.wf(),
            forall|line: Seq<char>|
                #[trigger] lines.has(line) <==> (exists|k: int|
                    0 <= k < i && event_blocks(*config, #[trigger] events@[k], now) && event_line(
                        events@[k],
                        now,
                    ) == line),
    {
        let event = &events[i];
        let ghost before = lines;
        assert(events@[i as int].occurred_at_utc matches Some(time) ==> time.valid());
        let recent: bool = match event.occurred_at_utc {
            Some(time) => elapsed_hours(now, time) <= config.activity_block_hours,
            None => true,
        };
        if event.kind.blocks_new_entries() && recent {
            assert(event_blocks(*config, events@[i as int], now));
            lines.insert(blocking_line(event, now));
        }
        proof {
            assert forall|line: Seq<char>|
                #[trigger] lines.has(line) <==> (exists|k: int|
                    0 <= k < i + 1 && event_blocks(*config, #[trigger] events@[k], now)
                        && event_line(events@[k], now) == line) by {
                assert(before.has(line) <==> (exists|k: int|
                    0 <= k < i && event_blocks(*config, #[trigger] events@[k], now) && event_line(
                        events@[k],
                        now,
                    ) == line));
                if event_blocks(*config, events@[i as int], now) && event_line(
                    events@[i as int],
                    now,
                ) == line {
                    assert(event_blocks(*config, events@[i as int], now));
                }
            }
        }
    }
    let blocks = lines.to_texts();
    proof {
        assert forall|line: Seq<char>|
            #[trigger] texts(blocks@).contains(line) <==> reports_block(
                *config,
                events@,
                now,
                line,
            ) by {
            assert(lines.has(line) <==> texts(blocks@).contains(line));
        }
    }
    blocks
}

/// The position of the first symbol that expires within a limit, the number of symbols when none
/// does.
pub open spec fn expiring_position(symbols: Seq<Seq<char>>, today: int, limit: i64) -> int
    decreases symbols.len(),
{
    if symbols.len() == 0 {
        0
    } else {
        match expiration_days(symbols[0], today) {
            Some(days) => if days <= limit {
                0
            } else {
                1 + expiring_position(symbols.drop_first(), today, limit)
            },
            None => 1 + expiring_position(symbols.drop_first(), today, limit),
        }
    }
}

/// The block on an entry with a leg that expires within the configured days.
pub open spec fn expiration_block(
    config: OptionLifecycleRiskConfig,
    selected: SelectedOptionsEntry,
    now: UtcInstant,
) -> Option<BlockView> {
    let limit = config.expiration_entry_block_days;
    let symbols = selected.symbols();
    let at = expiring_position(symbols, now.utc_day(), limit);
    if limit < 0 || at >= symbols.len() {
        None
    } else {
        Some(
            plain_block(
                "expiration_entry_block"@,
                seq![
                    "symbol="@ + symbols[at],
                    "days_to_expiration="@ + signed_decimal(
                        expiration_days(symbols[at], now.utc_day())->0,
                    ),
                    "limit_days="@ + signed_decimal(limit as int),
                ],
            ),
        )
    }
}

/// Returns the block on an entry with a leg that expires within the configured days.
pub fn expiration_entry_block(
    config: &OptionLifecycleRiskConfig,
    selected: &SelectedOptionsEntry,
    now: UtcInstant,
) -> (made: Option<SubmissionBlock>)
    ensures
        opt_block(made) == expiration_block(*config, *selected, now),
{
    let limit: i64 = config.expiration_entry_block_days;
    if limit < 0 {
        return None;
    }
    let today: i64 = utc_day_of(now);
    let symbols = selected.option_symbols();
    let n: usize = symbols.len();
    let ghost all = selected.symbols();
    assert(all.skip(0) =~= all);
    for i in 0..n
        invariant
            all == selected.symbols(),
            slices(symbols@) == all,
            n == all.len(),
            today == now.utc_day(),
            limit == config.expiration_entry_block_days,
            limit >= 0,
            expiring_position(all, today as int, limit) == i + expiring_position(
                all.skip(i as int),
                today as int,
                limit,
            ),
    {
        assert(all.skip(i as int).drop_first() =~= all.skip(i + 1));
        assert(all.skip(i as int)[0] == symbols@[i as int]@);
        match days_to_expiration(symbols[i], today) {
            Some(days) => {
                if days <= limit {
                    let details = vec![
                        "symbol=".to_owned().concat(symbols[i]),
                        "days_to_expiration=".to_owned().concat(signed_text(days).as_str()),
                        "limit_days=".to_owned().concat(signed_text(limit).as_str()),
                    ];
                    assert(texts(details@) =~= seq![
                        "symbol="@ + all[i as int],
                        "days_to_expiration="@ + signed_decimal(days as int),
                        "limit_days="@ + signed_decimal(limit as int),
                    ]);
                    return Some(
                        SubmissionBlock {
                            reason: "expiration_entry_block".to_owned(),
                            current: None,
                            limit: None,
                            details,
                        },
                    );
                }
            },
            None => {},
        }
    }
    None
}

/// Current lifecycle risk state.
#[derive(Clone, Debug, PartialEq, Eq)]
pub struct OptionLifecycleRiskState {
    /// Most recent normalized lifecycle events.
    pub events: Vec<OptionLifecycleEvent>,
    /// Account-level lifecycle reasons blocking new entries.
    pub account_blocks: Vec<String>,
    /// Last poll timestamp.
    pub last_poll_at_utc: Option<UtcInstant>,
    /// Last poll error, if any.
    pub last_poll_error: Option<String>,
}

impl Default for OptionLifecycleRiskState {
    fn default() -> (state: OptionLifecycleRiskState)
        ensures
            state.events@.len() == 0,
            state.account_blocks@.len() == 0,
            state.last_poll_at_utc is None,
            state.last_poll_error is None,
    {
        OptionLifecycleRiskState {
            events: Vec::new(),
            account_blocks: Vec::new(),
            last_poll_at_utc: None,
            last_poll_error: None,
        }
    }
}

/// Lifecycle risk configuration and state.
#[derive(Clone, Debug)]
pub struct OptionLifecycleRiskHandle {
    /// Configuration.
    pub config: OptionLifecycleRiskConfig,
    /// State after the last poll.
    pub state: OptionLifecycleRiskState,
}

/// The lifecycle block on an entry: that of its expiration, else that of the account.
pub open spec fn lifecycle_block(
    config: OptionLifecycleRiskConfig,
    account_blocks: Seq<Seq<char>>,
    selected: SelectedOptionsEntry,
    now: UtcInstant,
) -> Option<BlockView> {
    match expiration_block(config, selected, now) {
        Some(found) => Some(found),
        None => if account_blocks.len() == 0 {
            None
        } else {
            Some(plain_block("account_lifecycle_event"@, account_blocks))
        },
    }
}

fn copy_events(events: &Vec<OptionLifecycleEvent>) -> (copy: Vec<OptionLifecycleEvent>)
    ensures
        copy@ == events@,
{
    let mut copy: Vec<OptionLifecycleEvent> = Vec::new();
    let n: usize = events.len();
    for i in 0..n
        invariant
            n == events@.len(),
            copy@ == events@.take(i as int),
    {
        let event = &events[i];
        copy.push(
            OptionLifecycleEvent {
                kind: event.kind,
                id: copy_opt(&event.id),
                symbol: copy_opt(&event.symbol),
                occurred_at_utc: event.occurred_at_utc,
                activity_date: copy_opt(&event.activity_date),
                quantity: copy_opt(&event.quantity),
            },
        );
        assert(copy@ =~= events@.take(i + 1));
    }
    assert(events@.take(n as int) =~= events@);
    copy
}

impl OptionLifecycleRiskHandle {
    /// Creates a new lifecycle risk handle.
    #[must_use]
    pub fn new(config: OptionLifecycleRiskConfig) -> (handle: OptionLifecycleRiskHandle)
        ensures
            handle.config == config,
            handle.state.events@.len() == 0,
            handle.state.account_blocks@.len() == 0,
            handle.state.last_poll_at_utc is None,
            handle.state.last_poll_error is None,
    {
        OptionLifecycleRiskHandle {
            config,
            state: OptionLifecycleRiskState {
                events: Vec::new(),
                account_blocks: Vec::new(),
                last_poll_at_utc: None,
                last_poll_error: None,
            },
        }
    }

    /// Returns the current lifecycle risk state.
    #[must_use]
    pub fn snapshot(&self) -> (state: OptionLifecycleRiskState)
        ensures
            state.events@ == self.state.events@,
            texts(state.account_blocks@) == texts(self.state.account_blocks@),
            state.last_poll_at_utc == self.state.last_poll_at_utc,
            state.last_poll_error == self.state.last_poll_error,
    {
        OptionLifecycleRiskState {
            events: copy_events(&self.state.events),
            account_blocks: copy_texts(&self.state.account_blocks),
            last_poll_at_utc: self.state.last_poll_at_utc,
            last_poll_error: copy_opt(&self.state.last_poll_error),
        }
    }

    /// Replaces the current lifecycle event snapshot.
    pub fn update_events(&mut self, events: Vec<OptionLifecycleEvent>, now: UtcInstant)
        requires
            now.valid(),
            times_valid(events@),
        ensures
            final(self).config == old(self).config,
            final(self).state.events == events,
            ascending(texts(final(self).state.account_blocks@)),
            forall|line: Seq<char>|
                #[trigger] texts(final(self).state.account_blocks@).contains(line)
                    <==> reports_block(old(self).config, events@, now, line),
            final(self).state.last_poll_at_utc == Some(now),
            final(self).state.last_poll_error is None,
    {
        let blocks = account_activity_blocks(&self.config, &events, now);
        self.state.events = events;
        self.state.account_blocks = blocks;
        self.state.last_poll_at_utc = Some(now);
        self.state.last_poll_error = None;
    }

    /// Records a poll failure and blocks new entries until a successful poll refreshes state.
    pub fn record_poll_error(&mut self, error: String, now: UtcInstant)
        ensures
            final(self).config == old(self).config,
            final(self).state.events == old(self).state.events,
            texts(final(self).state.account_blocks@) == seq![
                "lifecycle_activity_poll_failed: "@ + error@,
            ],
            final(self).state.last_poll_at_utc == Some(now),
            final(self).state.last_poll_error == Some(error),
    {
        let blocks = vec!["lifecycle_activity_poll_failed: ".to_owned().concat(error.as_str())];
        assert(texts(blocks@) =~= seq!["lifecycle_activity_poll_failed: "@ + error@]);
        self.state.account_blocks = blocks;
        self.state.last_poll_at_utc = Some(now);
        self.state.last_poll_error = Some(error);
    }

    /// Returns a lifecycle submission block for a selected entry, if one applies.
    #[must_use]
    pub fn submission_block(
        &self,
        selected: &SelectedOptionsEntry,
        now: UtcInstant,
    ) -> (made: Option<SubmissionBlock>)
        ensures
            opt_block(made) == lifecycle_block(
                self.config,
                texts(self.state.account_blocks@),
                *selected,
                now,
            ),
    {
        let expiring = expiration_entry_block(&self.config, selected, now);
        if expiring.is_some() {
            return expiring;
        }
        if self.state.account_blocks.len() == 0 {
            None
        } else {
            Some(
                SubmissionBlock {
                    reason: "account_lifecycle_event".to_owned(),
                    current: None,
                    limit: None,
                    details: copy_texts(&self.state.account_blocks),
                },
            )
        }
    }
}

/// While the last poll has failed, no entry is admitted.
pub proof fn failed_poll_blocks_every_entry(
    config: OptionLifecycleRiskConfig,
    error: Seq<char>,
    selected: SelectedOptionsEntry,
    now: UtcInstant,
)
    ensures
        lifecycle_block(
            config,
            seq!["lifecycle_activity_poll_failed: "@ + error],
            selected,
            now,
        ) is Some,
{
}

/// After a poll, an entry is blocked for the account exactly while an assignment or exercise is
/// recent or without a time.
pub proof fn poll_blocks_exactly_on_recent_events(
    config: OptionLifecycleRiskConfig,
    events: Seq<OptionLifecycleEvent>,
    blocks: Seq<Seq<char>>,
    selected: SelectedOptionsEntry,
    now: UtcInstant,
)
    requires
        forall|line: Seq<char>|
            #[trigger] blocks.contains(line) <==> reports_block(config, events, now, line),
        expiration_block(config, selected, now) is None,
    ensures
        lifecycle_block(config, blocks, selected, now) is Some <==> (exists|i: int|
            0 <= i < events.len() && event_blocks(config, #[trigger] events[i], now)),
{
    if blocks.len() > 0 {
        assert(blocks.contains(blocks[0]));
        assert(reports_block(config, events, now, blocks[0]));
    }
    if exists|i: int| 0 <= i < events.len() && event_blocks(config, #[trigger] events[i], now) {
        let i = choose|i: int|
            0 <= i < events.len() && event_blocks(config, #[trigger] events[i], now);
        assert(reports_block(config, events, now, event_line(events[i], now)));
        assert(blocks.contains(event_line(events[i], now)));
    }
}

/// A request for account activities.
#[derive(Clone, Debug)]
pub struct ListActivitiesRequest {
    /// Activity types to list.
    pub activity_types: Vec<String>,
    /// Sort direction.
    pub direction: Option<String>,
    /// Time after which activities are listed.
    pub after: Option<String>,
}

/// Builds an account-activity request for option lifecycle events after `after`.
#[must_use]
pub fn option_lifecycle_activity_request(after: UtcInstant) -> (request: ListActivitiesRequest)
    ensures
        texts(request.activity_types@) == seq!["OPASN"@, "OPEXC"@, "OPEXP"@],
        opt_text(request.direction) == Some("asc"@),
        opt_text(request.after) == rfc3339_writing(after.secs, after.nanos),
{
    let activity_types = vec![
        OptionLifecycleEventKind::Assignment.activity_type().to_owned(),
        OptionLifecycleEventKind::Exercise.activity_type().to_owned(),
        OptionLifecycleEventKind::Expiration.activity_type().to_owned(),
    ];
    assert(texts(activity_types@) =~= seq!["OPASN"@, "OPEXC"@, "OPEXP"@]);
    ListActivitiesRequest {
        activity_types,
        direction: Some("asc".to_owned()),
        after: instant_text(after),
    }
}

} // verus!
