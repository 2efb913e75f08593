//! Strategy profiles and the labels that configuration files use for them.
use std::str::FromStr;

use vstd::prelude::*;

use crate::amount::copy_figure;
use crate::amount::Figure;
use crate::candidates::CreditSpreadKind;
use crate::candidates::DebitSpreadKind;
use crate::candidates::NakedOptionKind;
use crate::text::count_text;
use crate::text::decimal;
use crate::text::decimal_text;
use crate::text::is_space;
use crate::text::join;
use crate::text::joined;
use crate::text::lower;
use crate::text::lower_char;
use crate::text::same_text;
use crate::text::slices;
use crate::text::texts;
use crate::text::to_lower;
use crate::text::trim;
use crate::text::trimmed;
use crate::text::trimmed_end;
use crate::text::trimmed_start;

verus! {

/// Runtime strategy profile mode.
#[derive(Clone, Copy, Debug, PartialEq, Eq, Structural)]
pub enum AlpacaOptionsStrategyMode {
    /// Candidate can submit broker orders when account-level order gates allow it.
    Live,
    /// Candidate scans and records evidence but cannot submit opening broker orders.
    DryRun,
}

/// A configuration label without case and surrounding white space.
pub open spec fn plain_label(value: Seq<char>) -> Seq<char> {
    lower(trimmed(value))
}

/// The mode that a configuration label names.
pub open spec fn mode_named(value: Seq<char>) -> Option<AlpacaOptionsStrategyMode> {
    let label = plain_label(value);
    if label == "live"@ || label == "enabled"@ || label == "submit"@ {
        Some(AlpacaOptionsStrategyMode::Live)
    } else if label == "dry_run"@ || label == "dry-run"@ || label == "watchlist"@ || label
        == "paper_watch"@ {
        Some(AlpacaOptionsStrategyMode::DryRun)
    } else {
        None
    }
}

impl AlpacaOptionsStrategyMode {
    /// The config and status label.
    pub open spec fn label(self) -> Seq<char> {
        match self {
            AlpacaOptionsStrategyMode::Live => "live"@,
            AlpacaOptionsStrategyMode::DryRun => "dry_run"@,
        }
    }

    /// Returns the stable config/status label.
    #[must_use]
    pub fn as_str(self) -> (label: &'static str)
        ensures
            label@ == self.label(),
    {
        match self {
            AlpacaOptionsStrategyMode::Live => "live",
            AlpacaOptionsStrategyMode::DryRun => "dry_run",
        }
    }

    /// Reads a configuration label.
    pub fn parse(value: &str) -> (mode: Result<AlpacaOptionsStrategyMode, String>)
        ensures
            match mode {
                Ok(found) => mode_named(value@) == Some(found),
                Err(message) => mode_named(value@) is None && message@
                    == "unsupported Alpaca strategy mode "@ + plain_label(value@),
            },
    {
        let plain = to_lower(trim(value));
        let label = plain.as_str();
        if same_text(label, "live") || same_text(label, "enabled") || same_text(label, "submit") {
            Ok(AlpacaOptionsStrategyMode::Live)
        } else if same_text(label, "dry_run") || same_text(label, "dry-run") || same_text(
            label,
            "watchlist",
        ) || same_text(label, "paper_watch") {
            Ok(AlpacaOptionsStrategyMode::DryRun)
        } else {
            Err("unsupported Alpaca strategy mode ".to_owned().concat(label))
        }
    }
}

impl FromStr for AlpacaOptionsStrategyMode {
    type Err = String;

    fn from_str(value: &str) -> (mode: Result<Self, String>)
        ensures
            match mode {
                Ok(found) => mode_named(value@) == Some(found),
                Err(message) => mode_named(value@) is None && message@
                    == "unsupported Alpaca strategy mode "@ + plain_label(value@),
            },
    {
        AlpacaOptionsStrategyMode::parse(value)
    }
}

/// Stable strategy family for one Alpaca options profile.
#[derive(Clone, Copy, Debug, PartialEq, Eq, PartialOrd, Ord, Structural)]
pub enum AlpacaOptionsStrategyFamily {
    /// Put credit spread.
    PutCredit,
    /// Call credit spread.
    CallCredit,
    /// Iron condor.
    IronCondor,
    /// Put debit spread.
    PutDebit,
    /// Call debit spread.
    CallDebit,
    /// Naked short put.
    NakedPut,
    /// Naked short call.
    NakedCall,
    /// 1-3 DTE naked short put.
    NakedPutOneToThreeDte,
    /// 1-3 DTE naked short call.
    NakedCallOneToThreeDte,
}

/// The family that a configuration label names.
pub open spec fn family_named(value: Seq<char>) -> Option<AlpacaOptionsStrategyFamily> {
    let label = plain_label(value);
    if label == "put"@ || label == "put_credit"@ {
        Some(AlpacaOptionsStrategyFamily::PutCredit)
    } else if label == "call"@ || label == "call_credit"@ {
        Some(AlpacaOptionsStrategyFamily::CallCredit)
    } else if label == "iron_condor"@ || label == "condor"@ {
        Some(AlpacaOptionsStrategyFamily::IronCondor)
    } else if label == "put_debit"@ || label == "earnings_put_debit_entry"@ {
        Some(AlpacaOptionsStrategyFamily::PutDebit)
    } else if label == "call_debit"@ || label == "earnings_call_debit_entry"@ {
        Some(AlpacaOptionsStrategyFamily::CallDebit)
    } else if label == "naked_put"@ || label == "short_put"@ {
        Some(AlpacaOptionsStrategyFamily::NakedPut)
    } else if label == "naked_call"@ || label == "short_call"@ {
        Some(AlpacaOptionsStrategyFamily::NakedCall)
    } else if label == "naked_put_1_3dte"@ || label == "short_put_1_3dte"@ {
        Some(AlpacaOptionsStrategyFamily::NakedPutOneToThreeDte)
    } else if label == "naked_call_1_3dte"@ || label == "short_call_1_3dte"@ {
        Some(AlpacaOptionsStrategyFamily::NakedCallOneToThreeDte)
    } else {
        None
    }
}

impl AlpacaOptionsStrategyFamily {
    /// The strategy label.
    pub open spec fn label(self) -> Seq<char> {
        match self {
            AlpacaOptionsStrategyFamily::PutCredit => "put_credit"@,
            AlpacaOptionsStrategyFamily::CallCredit => "call_credit"@,
            AlpacaOptionsStrategyFamily::IronCondor => "iron_condor"@,
            AlpacaOptionsStrategyFamily::PutDebit => "put_debit"@,
            AlpacaOptionsStrategyFamily::CallDebit => "call_debit"@,
            AlpacaOptionsStrategyFamily::NakedPut => "naked_put"@,
            AlpacaOptionsStrategyFamily::NakedCall => "naked_call"@,
            AlpacaOptionsStrategyFamily::NakedPutOneToThreeDte => "naked_put_1_3dte"@,
            AlpacaOptionsStrategyFamily::NakedCallOneToThreeDte => "naked_call_1_3dte"@,
        }
    }

    /// Whether a position of this family has no bound on its loss.
    pub open spec fn undefined_risk(self) -> bool {
        ||| self is NakedPut
        ||| self is NakedCall
        ||| self is NakedPutOneToThreeDte
        ||| self is NakedCallOneToThreeDte
    }

    /// Returns the stable strategy label.
    #[must_use]
    pub fn as_str(self) -> (label: &'static str)
        ensures
            label@ == self.label(),
    {
        match self {
            AlpacaOptionsStrategyFamily::PutCredit => "put_credit",
            AlpacaOptionsStrategyFamily::CallCredit => "call_credit",
            AlpacaOptionsStrategyFamily::IronCondor => "iron_condor",
            AlpacaOptionsStrategyFamily::PutDebit => "put_debit",
            AlpacaOptionsStrategyFamily::CallDebit => "call_debit",
            AlpacaOptionsStrategyFamily::NakedPut => "naked_put",
            AlpacaOptionsStrategyFamily::NakedCall => "naked_call",
            AlpacaOptionsStrategyFamily::NakedPutOneToThreeDte => "naked_put_1_3dte",
            AlpacaOptionsStrategyFamily::NakedCallOneToThreeDte => "naked_call_1_3dte",
        }
    }

    /// Reads a configuration label.
    pub fn parse(value: &str) -> (family: Result<AlpacaOptionsStrategyFamily, String>)
        ensures
            match family {
                Ok(found) => family_named(value@) == Some(found),
                Err(message) => family_named(value@) is None && message@
                    == "unsupported Alpaca strategy family "@ + plain_label(value@),
            },
    {
        let plain = to_lower(trim(value));
        let label = plain.as_str();
        if same_text(label, "put") || same_text(label, "put_credit") {
            Ok(AlpacaOptionsStrategyFamily::PutCredit)
        } else if same_text(label, "call") || same_text(label, "call_credit") {
            Ok(AlpacaOptionsStrategyFamily::CallCredit)
        } else if same_text(label, "iron_condor") || same_text(label, "condor") {
            Ok(AlpacaOptionsStrategyFamily::IronCondor)
        } else if same_text(label, "put_debit") || same_text(label, "earnings_put_debit_entry") {
            Ok(AlpacaOptionsStrategyFamily::PutDebit)
        } else if same_text(label, "call_debit") || same_text(label, "earnings_call_debit_entry") {
            Ok(AlpacaOptionsStrategyFamily::CallDebit)
        } else if same_text(label, "naked_put") || same_text(label, "short_put") {
            Ok(AlpacaOptionsStrategyFamily::NakedPut)
        } else if same_text(label, "naked_call") || same_text(label, "short_call") {
            Ok(AlpacaOptionsStrategyFamily::NakedCall)
        } else if same_text(label, "naked_put_1_3dte") || same_text(label, "short_put_1_3dte") {
            Ok(AlpacaOptionsStrategyFamily::NakedPutOneToThreeDte)
        } else if same_text(label, "naked_call_1_3dte") || same_text(label, "short_call_1_3dte") {
            Ok(AlpacaOptionsStrategyFamily::NakedCallOneToThreeDte)
        } else {
            Err("unsupported Alpaca strategy family ".to_owned().concat(label))
        }
    }

    /// Returns whether a position of this family has no bound on its loss.
    pub fn is_undefined_risk(self) -> (undefined: bool)
        ensures
            undefined == self.undefined_risk(),
    {
        matches!(
            self,
            AlpacaOptionsStrategyFamily::NakedPut | AlpacaOptionsStrategyFamily::NakedCall
            | AlpacaOptionsStrategyFamily::NakedPutOneToThreeDte
            | AlpacaOptionsStrategyFamily::NakedCallOneToThreeDte
        )
    }
}

impl FromStr for AlpacaOptionsStrategyFamily {
    type Err = String;

    fn from_str(value: &str) -> (family: Result<Self, String>)
        ensures
            match family {
                Ok(found) => family_named(value@) == Some(found),
                Err(message) => family_named(value@) is None && message@
                    == "unsupported Alpaca strategy family "@ + plain_label(value@),
            },
    {
        AlpacaOptionsStrategyFamily::parse(value)
    }
}

/// A text in lower case without white space is its own plain label.
proof fn plain_label_of_plain_text(text: Seq<char>)
    requires
        text.len() > 0,
        forall|i: int| 0 <= i < text.len() ==> !is_space(#[trigger] text[i]) && lower_char(text[i]) == text[i],
    ensures
        plain_label(text) == text,
{
    assert(!is_space(text[0]));
    assert(!is_space(text[text.len() - 1]));
    assert(trimmed_start(text) == text);
    assert(trimmed_end(text) == text);
    assert(lower(text) =~= text);
}

/// Every mode is read back from its own label.
pub proof fn mode_labels_read_back(mode: AlpacaOptionsStrategyMode)
    ensures
        mode_named(mode.label()) == Some(mode),
{
    reveal_strlit("live");
    reveal_strlit("enabled");
    reveal_strlit("submit");
    reveal_strlit("dry_run");
    plain_label_of_plain_text("live"@);
    plain_label_of_plain_text("dry_run"@);
    assert("dry_run"@[0] == 'd' && "dry_run"@.len() == 7);
    assert("enabled"@[0] == 'e');
}

/// Every family is read back from its own label.
pub proof fn family_labels_read_back(family: AlpacaOptionsStrategyFamily)
    ensures
        family_named(family.label()) == Some(family),
{
    reveal_strlit("put");
    reveal_strlit("put_credit");
    reveal_strlit("call");
    reveal_strlit("call_credit");
    reveal_strlit("iron_condor");
    reveal_strlit("condor");
    reveal_strlit("put_debit");
    reveal_strlit("earnings_put_debit_entry");
    reveal_strlit("call_debit");
    reveal_strlit("earnings_call_debit_entry");
    reveal_strlit("naked_put");
    reveal_strlit("short_put");
    reveal_strlit("naked_call");
    reveal_strlit("short_call");
    reveal_strlit("naked_put_1_3dte");
    reveal_strlit("short_put_1_3dte");
    reveal_strlit("naked_call_1_3dte");
    let label = family.label();
    plain_label_of_plain_text(label);
    let first = label[0];
    assert("put"@.len() == 3 && "call"@.len() == 4 && "condor"@.len() == 6);
    assert("put_credit"@.len() == 10 && "put_credit"@[0] == 'p');
    assert("call_credit"@.len() == 11 && "call_credit"@[0] == 'c');
    assert("iron_condor"@.len() == 11 && "iron_condor"@[0] == 'i');
    assert("put_debit"@.len() == 9 && "put_debit"@[0] == 'p');
    assert("call_debit"@.len() == 10 && "call_debit"@[0] == 'c');
    assert("naked_put"@.len() == 9 && "naked_put"@[0] == 'n');
    assert("naked_call"@.len() == 10 && "naked_call"@[0] == 'n');
    assert("naked_put_1_3dte"@.len() == 16 && "naked_put_1_3dte"@[0] == 'n');
    assert("naked_call_1_3dte"@.len() == 17);
    assert("earnings_put_debit_entry"@[0] == 'e');
    assert("earnings_call_debit_entry"@[0] == 'e');
    assert("short_put"@[0] == 's');
    assert("short_call"@[0] == 's');
    assert("short_put_1_3dte"@[0] == 's');
}

/// The credit-spread kind of a family.
pub open spec fn credit_kind(family: AlpacaOptionsStrategyFamily) -> Option<CreditSpreadKind> {
    match family {
        AlpacaOptionsStrategyFamily::PutCredit => Some(CreditSpreadKind::Put),
        AlpacaOptionsStrategyFamily::CallCredit => Some(CreditSpreadKind::Call),
        _ => None,
    }
}

/// The debit-spread kind of a family.
pub open spec fn debit_kind(family: AlpacaOptionsStrategyFamily) -> Option<DebitSpreadKind> {
    match family {
        AlpacaOptionsStrategyFamily::PutDebit => Some(DebitSpreadKind::Put),
        AlpacaOptionsStrategyFamily::CallDebit => Some(DebitSpreadKind::Call),
        _ => None,
    }
}

/// The naked-option kind of a family.
pub open spec fn naked_kind(family: AlpacaOptionsStrategyFamily) -> Option<NakedOptionKind> {
    match family {
        AlpacaOptionsStrategyFamily::NakedPut => Some(NakedOptionKind::Put),
        AlpacaOptionsStrategyFamily::NakedCall => Some(NakedOptionKind::Call),
        AlpacaOptionsStrategyFamily::NakedPutOneToThreeDte => Some(
            NakedOptionKind::PutOneToThreeDte,
        ),
        AlpacaOptionsStrategyFamily::NakedCallOneToThreeDte => Some(
            NakedOptionKind::CallOneToThreeDte,
        ),
        _ => None,
    }
}

/// Returns the credit-spread kind of a family.
pub fn credit_kind_from_family(family: AlpacaOptionsStrategyFamily) -> (kind: Option<
    CreditSpreadKind,
>)
    ensures
        kind == credit_kind(family),
{
    match family {
        AlpacaOptionsStrategyFamily::PutCredit => Some(CreditSpreadKind::Put),
        AlpacaOptionsStrategyFamily::CallCredit => Some(CreditSpreadKind::Call),
        _ => None,
    }
}

/// Returns the debit-spread kind of a family.
pub fn debit_kind_from_family(family: AlpacaOptionsStrategyFamily) -> (kind: Option<
    DebitSpreadKind,
>)
    ensures
        kind == debit_kind(family),
{
    match family {
        AlpacaOptionsStrategyFamily::PutDebit => Some(DebitSpreadKind::Put),
        AlpacaOptionsStrategyFamily::CallDebit => Some(DebitSpreadKind::Call),
        _ => None,
    }
}

/// Returns the naked-option kind of a family.
pub fn naked_kind_from_family(family: AlpacaOptionsStrategyFamily) -> (kind: Option<
    NakedOptionKind,
>)
    ensures
        kind == naked_kind(family),
{
    match family {
        AlpacaOptionsStrategyFamily::NakedPut => Some(NakedOptionKind::Put),
        AlpacaOptionsStrategyFamily::NakedCall => Some(NakedOptionKind::Call),
        AlpacaOptionsStrategyFamily::NakedPutOneToThreeDte => Some(
            NakedOptionKind::PutOneToThreeDte,
        ),
        AlpacaOptionsStrategyFamily::NakedCallOneToThreeDte => Some(
            NakedOptionKind::CallOneToThreeDte,
        ),
        _ => None,
    }
}

/// Which scanner a profile is configured for.
#[derive(Clone, Copy, Debug, PartialEq, Eq, Structural)]
pub enum AlpacaOptionsStrategyScannerConfig {
    /// Credit-spread scanner.
    Credit,
    /// Iron-condor scanner.
    IronCondor,
    /// Debit-spread scanner.
    Debit,
    /// Naked-option scanner.
    Naked,
}

/// Profile-local risk overrides read from config.
#[derive(Clone, Debug)]
pub struct AlpacaOptionsStrategyRiskOverrides {
    /// Maximum active entries for this profile.
    pub max_active_entries: Option<usize>,
    /// Maximum accepted submissions for this profile and trade date.
    pub max_daily_submits: Option<usize>,
    /// Maximum active entries for one profile underlying.
    pub max_active_entries_per_underlying: Option<usize>,
    /// Maximum selected-entry risk capital in USD.
    pub max_single_entry_risk_capital_usd: Option<Figure>,
}

/// A limit as one part of a summary.
pub open spec fn limit_part(name: Seq<char>, limit: Option<usize>) -> Seq<Seq<char>> {
    match limit {
        Some(value) => seq![name + "="@ + decimal(value as nat)],
        None => Seq::empty(),
    }
}

/// A figure as one part of a summary.
pub open spec fn figure_part(name: Seq<char>, figure: Option<Figure>) -> Seq<Seq<char>> {
    match figure {
        Some(value) => seq![name + "="@ + value.text@],
        None => Seq::empty(),
    }
}

fn push_limit(parts: &mut Vec<String>, name: &str, limit: Option<usize>)
    ensures
        texts(final(parts)@) == texts(old(parts)@) + limit_part(name@, limit),
{
    match limit {
        Some(value) => {
            parts.push(name.to_owned().concat("=").concat(count_text(value).as_str()));
            assert(texts(parts@) =~= texts(old(parts)@) + limit_part(name@, limit));
        },
        None => {
            assert(texts(parts@) =~= texts(old(parts)@) + limit_part(name@, limit));
        },
    }
}

impl Default for AlpacaOptionsStrategyRiskOverrides {
    fn default() -> (risk: AlpacaOptionsStrategyRiskOverrides)
        ensures
            risk.has_none(),
    {
        AlpacaOptionsStrategyRiskOverrides {
            max_active_entries: None,
            max_daily_submits: None,
            max_active_entries_per_underlying: None,
            max_single_entry_risk_capital_usd: None,
        }
    }
}

impl AlpacaOptionsStrategyRiskOverrides {
    /// Whether there is no override.
    pub open spec fn has_none(self) -> bool {
        &&& self.max_active_entries is None
        &&& self.max_daily_submits is None
        &&& self.max_active_entries_per_underlying is None
        &&& self.max_single_entry_risk_capital_usd is None
    }

    /// The overrides as parts of a summary.
    pub open spec fn parts(self) -> Seq<Seq<char>> {
        limit_part("max_active_entries"@, self.max_active_entries) + limit_part(
            "max_daily_submits"@,
            self.max_daily_submits,
        ) + limit_part(
            "max_active_entries_per_underlying"@,
            self.max_active_entries_per_underlying,
        ) + figure_part(
            "max_single_entry_risk_capital_usd"@,
            self.max_single_entry_risk_capital_usd,
        )
    }

    /// Returns whether this profile carries any local risk override.
    #[must_use]
    pub fn is_empty(&self) -> (empty: bool)
        ensures
            empty == self.has_none(),
    {
        self.max_active_entries.is_none() && self.max_daily_submits.is_none()
            && self.max_active_entries_per_underlying.is_none()
            && self.max_single_entry_risk_capital_usd.is_none()
    }

    /// Returns a copy.
    pub fn copy(&self) -> (copy: AlpacaOptionsStrategyRiskOverrides)
        ensures
            copy == *self,
    {
        AlpacaOptionsStrategyRiskOverrides {
            max_active_entries: self.max_active_entries,
            max_daily_submits: self.max_daily_submits,
            max_active_entries_per_underlying: self.max_active_entries_per_underlying,
            max_single_entry_risk_capital_usd: copy_figure(&self.max_single_entry_risk_capital_usd),
        }
    }

    /// Returns the overrides joined by bars.
    pub fn summary(&self) -> (text: String)
        ensures
            text@ == joined(self.parts(), "|"@),
    {
        let mut parts: Vec<String> = Vec::new();
        assert(texts(parts@) =~= Seq::<Seq<char>>::empty());
        push_limit(&mut parts, "max_active_entries", self.max_active_entries);
        assert(texts(parts@) =~= limit_part("max_active_entries"@, self.max_active_entries));
        push_limit(&mut parts, "max_daily_submits", self.max_daily_submits);
        push_limit(
            &mut parts,
            "max_active_entries_per_underlying",
            self.max_active_entries_per_underlying,
        );
        let ghost before = texts(parts@);
        match &self.max_single_entry_risk_capital_usd {
            Some(figure) => {
                parts.push(
                    "max_single_entry_risk_capital_usd".to_owned().concat("=").concat(
                        figure.text.as_str(),
                    ),
                );
            },
            None => {},
        }
        assert(texts(parts@) =~= before + figure_part(
            "max_single_entry_risk_capital_usd"@,
            self.max_single_entry_risk_capital_usd,
        ));
        join(&parts, "|")
    }
}

/// Resolved strategy profile used by scanners and operator status.
#[derive(Clone, Debug)]
pub struct AlpacaOptionsStrategyProfile {
    /// Stable profile identifier.
    pub id: String,
    /// Strategy family scanned by this profile.
    pub family: AlpacaOptionsStrategyFamily,
    /// Opening-order mode for this profile.
    pub mode: AlpacaOptionsStrategyMode,
    /// Universe groups that the underlyings come from.
    pub universe_groups: Vec<String>,
    /// Underlyings named by the profile itself.
    pub include_underlyings: Vec<String>,
    /// Underlyings that the profile leaves out.
    pub exclude_underlyings: Vec<String>,
    /// Underlyings scanned by this profile.
    pub underlyings: Vec<String>,
    /// Contract quantity for this profile.
    pub quantity: u64,
    /// Scanner that this profile is configured for.
    pub scanner: AlpacaOptionsStrategyScannerConfig,
    /// Profile-local risk overrides from config.
    pub risk: AlpacaOptionsStrategyRiskOverrides,
}

impl AlpacaOptionsStrategyProfile {
    /// The compact summary.
    pub open spec fn summary_chars(self) -> Seq<char> {
        let base = self.id@ + ":"@ + self.family.label() + ":"@ + self.mode.label() + ":"@ + joined(
            texts(self.underlyings@),
            "|"@,
        ) + ":qty="@ + decimal(self.quantity as nat);
        let risk = joined(self.risk.parts(), "|"@);
        if risk.len() == 0 {
            base
        } else {
            base + ":risk="@ + risk
        }
    }

    /// Returns the stable strategy label.
    #[must_use]
    pub fn strategy_name(&self) -> (name: &'static str)
        ensures
            name@ == self.family.label(),
    {
        self.family.as_str()
    }

    /// Returns whether this profile is a dry-run/watchlist profile.
    #[must_use]
    pub fn is_dry_run(&self) -> (dry: bool)
        ensures
            dry == (self.mode is DryRun),
    {
        matches!(self.mode, AlpacaOptionsStrategyMode::DryRun)
    }

    /// Returns whether this profile scans the supplied underlying.
    #[must_use]
    pub fn scans_underlying(&self, underlying: &str) -> (scans: bool)
        ensures
            scans == (exists|i: int|
                0 <= i < self.underlyings@.len() && lower((#[trigger] self.underlyings@[i])@)
                    == lower(underlying@)),
    {
        let wanted = to_lower(underlying);
        for i in 0..self.underlyings.len()
            invariant
                wanted@ == lower(underlying@),
                forall|k: int|
                    0 <= k < i ==> lower((#[trigger] self.underlyings@[k])@) != lower(underlying@),
        {
            if same_text(to_lower(self.underlyings[i].as_str()).as_str(), wanted.as_str()) {
                assert(lower(self.underlyings@[i as int]@) == lower(underlying@));
                return true;
            }
        }
        false
    }

    /// Returns a compact config-check/status summary.
    #[must_use]
    pub fn summary(&self) -> (text: String)
        ensures
            text@ == self.summary_chars(),
    {
        let risk = self.risk.summary();
        let base = self.id.clone().concat(":").concat(self.family.as_str()).concat(":").concat(
            self.mode.as_str(),
        ).concat(":").concat(join(&self.underlyings, "|").as_str()).concat(":qty=").concat(
            decimal_text(self.quantity).as_str(),
        );
        if risk.as_str().is_empty() {
            base
        } else {
            base.concat(":risk=").concat(risk.as_str())
        }
    }
}

/// The names without later repetitions.
pub open spec fn unique(names: Seq<Seq<char>>) -> Seq<Seq<char>>
    decreases names.len(),
{
    if names.len() == 0 {
        Seq::empty()
    } else {
        let earlier = unique(names.drop_last());
        if earlier.contains(names.last()) {
            earlier
        } else {
            earlier.push(names.last())
        }
    }
}

/// Leaving out repetitions keeps every name and keeps it once.
pub proof fn unique_keeps_every_name_once(names: Seq<Seq<char>>)
    ensures
        unique(names).no_duplicates(),
        forall|x: Seq<char>| #[trigger] unique(names).contains(x) <==> names.contains(x),
    decreases names.len(),
{
    if names.len() > 0 {
        let init = names.drop_last();
        unique_keeps_every_name_once(init);
        let earlier = unique(init);
        assert forall|x: Seq<char>| #[trigger] unique(names).contains(x) <==> names.contains(x) by {
            if init.contains(x) {
                let k = init.index_of(x);
                assert(names[k] == x);
            }
            if x == names.last() {
                assert(names[names.len() - 1] == x);
            }
            if names.contains(x) && x != names.last() {
                let k = names.index_of(x);
                assert(init[k] == x);
            }
            assert(earlier.contains(x) <==> init.contains(x));
            if !earlier.contains(names.last()) {
                let longer = earlier.push(names.last());
                if earlier.contains(x) {
                    let k = earlier.index_of(x);
                    assert(longer[k] == x);
                }
                if x == names.last() {
                    assert(longer[earlier.len() as int] == x);
                }
                if longer.contains(x) && x != names.last() {
                    let k = longer.index_of(x);
                    assert(earlier[k] == x);
                }
            }
        }
    } else {
        assert(unique(names) =~= names);
    }
}

/// Returns the names without later repetitions.
pub fn unique_strategy_names(names: &Vec<&'static str>) -> (kept: Vec<&'static str>)
    ensures
        slices(kept@) == unique(slices(names@)),
{
    let mut kept: Vec<&'static str> = Vec::new();
    assert(slices(kept@) =~= Seq::<Seq<char>>::empty());
    let n: usize = names.len();
    for i in 0..n
        invariant
            n == names@.len(),
            slices(kept@) == unique(slices(names@).take(i as int)),
    {
        let name = names[i];
        let mut seen: bool = false;
        for j in 0..kept.len()
            invariant
                seen == slices(kept@).take(j as int).contains(name@),
        {
            proof {
                crate::text_set::lemma_take_contains(slices(kept@), j as int, name@);
            }
            if same_text(kept[j], name) {
                seen = true;
            }
        }
        proof {
            assert(slices(kept@).take(kept@.len() as int) =~= slices(kept@));
            let next = slices(names@).take(i + 1);
            assert(next.drop_last() =~= slices(names@).take(i as int));
            assert(next.last() == name@);
        }
        if !seen {
            let ghost before = kept@;
            kept.push(name);
            assert(slices(kept@) =~= slices(before).push(name@));
        }
    }
    assert(slices(names@).take(n as int) =~= slices(names@));
    kept
}

/// The family labels of some profiles.
pub open spec fn family_labels(profiles: Seq<AlpacaOptionsStrategyProfile>) -> Seq<Seq<char>> {
    Seq::new(profiles.len(), |i: int| profiles[i].family.label())
}

/// Returns the strategy names of the enabled profiles, each once.
pub fn enabled_strategy_family_names(profiles: &Vec<AlpacaOptionsStrategyProfile>) -> (names: Vec<
    &'static str,
>)
    ensures
        slices(names@) == unique(family_labels(profiles@)),
{
    let mut all: Vec<&'static str> = Vec::new();
    let n: usize = profiles.len();
    for i in 0..n
        invariant
            n == profiles@.len(),
            slices(all@) == family_labels(profiles@).take(i as int),
    {
        let ghost before = all@;
        all.push(profiles[i].strategy_name());
        proof {
            let label = profiles@[i as int].family.label();
            assert(slices(all@) =~= slices(before).push(label));
            assert(family_labels(profiles@).take(i + 1) =~= family_labels(profiles@).take(
                i as int,
            ).push(label));
        }
    }
    assert(family_labels(profiles@).take(n as int) =~= family_labels(profiles@));
    unique_strategy_names(&all)
}

/// Returns compact resolved strategy profile summaries.
pub fn strategy_profile_summaries(profiles: &Vec<AlpacaOptionsStrategyProfile>) -> (summaries: Vec<
    String,
>)
    ensures
        summaries@.len() == profiles@.len(),
        forall|i: int|
            0 <= i < profiles@.len() ==> (#[trigger] summaries@[i])@ == profiles@[i].summary_chars(),
{
    let mut summaries: Vec<String> = Vec::new();
    for i in 0..profiles.len()
        invariant
            summaries@.len() == i,
            forall|k: int| 0 <= k < i ==> (#[trigger] summaries@[k])@ == profiles@[k].summary_chars(),
    {
        summaries.push(profiles[i].summary());
    }
    summaries
}

} // verus!
