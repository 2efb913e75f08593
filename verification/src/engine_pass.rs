//! One pass over the entries of the strategy state.
//!
//! A pass visits the active entries in order. The caller asks for the [`next`](ManagementPass::next)
//! entry, does what the stage of the pass calls for, and hands the reply back.
use vstd::prelude::*;

use crate::broker::AlpacaOrder;
use crate::calendar::UtcInstant;
use crate::engine::after_close_step;
use crate::engine::after_entry_step;
use crate::engine::apply_close_step;
use crate::engine::apply_entry_step;
use crate::engine::close_decision;
use crate::engine::close_order_step;
use crate::engine::close_step_changes;
use crate::engine::decide_close;
use crate::engine::decide_close_order;
use crate::engine::decide_entry_order;
use crate::engine::entry_order_step;
use crate::engine::lookup_for;
use crate::engine::order_value;
use crate::engine::record_close_outcome;
use crate::engine::CloseDecision;
use crate::engine::CloseOrderStep;
use crate::engine::EngineManagementConfig;
use crate::engine::EntryOrderStep;
use crate::engine::OrderLookup;
use crate::engine::SubmitOutcome;
use crate::management::close_trigger;
use crate::management::CloseOrderMode;
use crate::management::CloseQuote;
use crate::management::CloseThresholds;
use crate::state::StrategyState;
use crate::state::StrategyStateEntry;
use crate::text::opt_text;

verus! {

/// What a pass waits for.
#[derive(Clone, Copy, Debug, PartialEq, Eq, Structural)]
pub enum PassStage {
    /// The next entry.
    Entry,
    /// The lookup of a working close.
    CloseOrder,
    /// The cancellation of a stale close.
    CloseCancellation,
    /// The lookup of opening orders.
    EntryOrder,
    /// The cancellation of stale opening orders.
    EntryCancellation,
    /// The price of a close.
    Quote,
    /// The submission of a close.
    Submission,
}

/// A pass over the entries.
#[derive(Clone, Copy, Debug, PartialEq, Eq, Structural)]
pub struct ManagementPass {
    /// Position of the entry at hand.
    pub at: usize,
    /// What the pass waits for.
    pub stage: PassStage,
    /// Whether an entry was changed.
    pub changed: bool,
}

/// Whether entries differ in the one at hand only.
pub open spec fn only_one_differs(
    before: Seq<StrategyStateEntry>,
    after: Seq<StrategyStateEntry>,
    at: int,
    entry: StrategyStateEntry,
) -> bool {
    0 <= at < before.len() && before[at].active() && after == before.update(at, entry)
}

impl ManagementPass {
    /// Whether a pass fits some entries: past the first stage it is at an active entry.
    pub open spec fn wf(self, entries: Seq<StrategyStateEntry>) -> bool {
        &&& self.at <= entries.len() <= usize::MAX
        &&& !(self.stage is Entry) ==> self.at < entries.len() && entries[self.at as int].active()
    }

    /// The pass at another stage of the same entry.
    pub open spec fn at_stage(self, stage: PassStage) -> ManagementPass {
        ManagementPass { stage, ..self }
    }

    /// The pass once the entry at hand is done with.
    pub open spec fn past(self, changed: bool) -> ManagementPass {
        ManagementPass {
            at: (self.at + 1) as usize,
            stage: PassStage::Entry,
            changed: self.changed || changed,
        }
    }

    /// Starts a pass.
    pub fn new() -> (pass: ManagementPass)
        ensures
            pass == (ManagementPass { at: 0, stage: PassStage::Entry, changed: false }),
    {
        ManagementPass { at: 0, stage: PassStage::Entry, changed: false }
    }

    /// Goes on to the next active entry; returns the order to look up for it, or nothing when no
    /// active entry is left.
    pub fn next(&mut self, state: &StrategyState) -> (lookup: Option<OrderLookup>)
        requires
            old(self).wf(state.entries@),
            old(self).stage is Entry,
        ensures
            final(self).wf(state.entries@),
            final(self).changed == old(self).changed,
            old(self).at <= final(self).at,
            forall|k: int|
                old(self).at <= k < final(self).at ==> !(#[trigger] state.entries@[k]).active(),
            match lookup {
                None => final(self).at == state.entries@.len() && final(self).stage is Entry,
                Some(OrderLookup::CloseOrder(id)) => final(self).stage is CloseOrder
                    && state.entries@[final(self).at as int].close_order_list_id == Some(id),
                Some(OrderLookup::EntryOrder(id)) => final(self).stage is EntryOrder
                    && state.entries@[final(self).at as int].close_order_list_id is None && id
                    == state.entries@[final(self).at as int].order_list_id,
            },
    {
        let n: usize = state.entries.len();
        while self.at < n
            invariant
                n == state.entries@.len(),
                old(self).at <= self.at <= n,
                self.stage is Entry,
                self.changed == old(self).changed,
                forall|k: int|
                    old(self).at <= k < self.at ==> !(#[trigger] state.entries@[k]).active(),
            decreases n - self.at,
        {
            if state.entries[self.at].is_active() {
                let lookup = lookup_for(&state.entries[self.at]);
                self.stage = match &lookup {
                    OrderLookup::CloseOrder(_) => PassStage::CloseOrder,
                    OrderLookup::EntryOrder(_) => PassStage::EntryOrder,
                };
                return Some(lookup);
            }
            self.at = self.at + 1;
        }
        None
    }

    fn done(&mut self, changed: bool)
        requires
            old(self).at < usize::MAX,
        ensures
            *final(self) == old(self).past(changed),
    {
        self.at = self.at + 1;
        self.stage = PassStage::Entry;
        self.changed = self.changed || changed;
    }

    /// Takes what the broker says of a working close. A stale close that may be canceled is
    /// canceled next; otherwise the entry is done with.
    pub fn on_close_order(
        &mut self,
        config: &EngineManagementConfig,
        state: &mut StrategyState,
        order: Option<&AlpacaOrder>,
        now: UtcInstant,
        now_text: String,
    ) -> (step: CloseOrderStep)
        requires
            old(self).wf(old(state).entries@),
            old(self).stage is CloseOrder,
            now.valid(),
        ensures
            final(self).wf(final(state).entries@),
            step == close_order_step(*config, order_value(order), now),
            step is StaleCancel ==> *final(self) == old(self).at_stage(
                PassStage::CloseCancellation,
            ) && final(state).entries@ == old(state).entries@,
            !(step is StaleCancel) ==> *final(self) == old(self).past(close_step_changes(step))
                && only_one_differs(
                old(state).entries@,
                final(state).entries@,
                old(self).at as int,
                after_close_step(
                    old(state).entries@[old(self).at as int],
                    step,
                    match order {
                        Some(found) => found.id,
                        None => None,
                    },
                    now_text,
                ),
            ),
    {
        let step = decide_close_order(config, order, now);
        if step == CloseOrderStep::StaleCancel {
            self.stage = PassStage::CloseCancellation;
            return step;
        }
        let none: Option<String> = None;
        let order_id: &Option<String> = match order {
            Some(found) => &found.id,
            None => &none,
        };
        let changed = apply_close_step(&mut state.entries[self.at], step, order_id, now_text);
        self.done(changed);
        step
    }

    /// Takes the news that a stale close is canceled: it is forgotten.
    pub fn on_close_canceled(&mut self, state: &mut StrategyState)
        requires
            old(self).wf(old(state).entries@),
            old(self).stage is CloseCancellation,
        ensures
            final(self).wf(final(state).entries@),
            *final(self) == old(self).past(true),
            only_one_differs(
                old(state).entries@,
                final(state).entries@,
                old(self).at as int,
                old(state).entries@[old(self).at as int].after_clear(),
            ),
    {
        state.entries[self.at].clear_close_submission();
        self.done(true);
    }

    /// Takes what the broker says of opening orders. Stale orders that may be canceled are canceled
    /// next, a position is priced next; otherwise the entry is done with.
    pub fn on_entry_order(
        &mut self,
        config: &EngineManagementConfig,
        state: &mut StrategyState,
        order: Option<&AlpacaOrder>,
        now: UtcInstant,
    ) -> (step: EntryOrderStep)
        requires
            old(self).wf(old(state).entries@),
            old(self).stage is EntryOrder,
            now.valid(),
        ensures
            final(self).wf(final(state).entries@),
            step == entry_order_step(*config, order_value(order), now),
            step is StaleCancel ==> *final(self) == old(self).at_stage(
                PassStage::EntryCancellation,
            ) && final(state).entries@ == old(state).entries@,
            step is Evaluate ==> *final(self) == old(self).at_stage(PassStage::Quote)
                && final(state).entries@ == old(state).entries@,
            !(step is StaleCancel || step is Evaluate) ==> *final(self) == old(self).past(
                step is Terminal,
            ) && only_one_differs(
                old(state).entries@,
                final(state).entries@,
                old(self).at as int,
                after_entry_step(old(state).entries@[old(self).at as int], step),
            ),
    {
        let step = decide_entry_order(config, order, now);
        match step {
            EntryOrderStep::StaleCancel => {
                self.stage = PassStage::EntryCancellation;
            },
            EntryOrderStep::Evaluate => {
                self.stage = PassStage::Quote;
            },
            _ => {
                let changed = apply_entry_step(&mut state.entries[self.at], step);
                self.done(changed);
            },
        }
        step
    }

    /// Takes the news that stale opening orders are canceled: the entry is canceled with them.
    pub fn on_entry_canceled(&mut self, state: &mut StrategyState)
        requires
            old(self).wf(old(state).entries@),
            old(self).stage is EntryCancellation,
        ensures
            final(self).wf(final(state).entries@),
            *final(self) == old(self).past(true),
            only_one_differs(
                old(state).entries@,
                final(state).entries@,
                old(self).at as int,
                old(state).entries@[old(self).at as int].after_cancel(),
            ),
    {
        state.entries[self.at].mark_canceled();
        self.done(true);
    }

    /// Takes the price of a close; returns the decision and the reason to close. A close that goes
    /// out is submitted next; otherwise the entry is done with.
    pub fn on_quote(
        &mut self,
        config: &EngineManagementConfig,
        state: &StrategyState,
        quote: &Option<CloseQuote>,
        thresholds: &CloseThresholds,
        now: UtcInstant,
    ) -> (outcome: (CloseDecision, Option<String>))
        requires
            old(self).wf(state.entries@),
            old(self).stage is Quote,
            now.valid(),
        ensures
            final(self).wf(state.entries@),
            outcome.0 == close_decision(
                *config,
                state.entries@[old(self).at as int],
                *quote,
                *thresholds,
                now,
            ),
            opt_text(outcome.1) == match *quote {
                Some(found) => close_trigger(
                    config.management,
                    state.entries@[old(self).at as int],
                    found.debit,
                    *thresholds,
                    now,
                ),
                None => None,
            },
            *final(self) == if outcome.0 is Submit {
                old(self).at_stage(PassStage::Submission)
            } else {
                old(self).past(false)
            },
    {
        let outcome = decide_close(config, &state.entries[self.at], quote, thresholds, now);
        if outcome.0 == CloseDecision::Submit {
            self.stage = PassStage::Submission;
        } else {
            self.done(false);
        }
        outcome
    }

    /// Takes what the broker said to a submitted close: it stands in the entry when at least one of
    /// its orders was accepted.
    pub fn on_submitted(
        &mut self,
        state: &mut StrategyState,
        outcome: SubmitOutcome,
        close_order_list_id: String,
        close_reason: String,
        now_text: String,
    )
        requires
            old(self).wf(old(state).entries@),
            old(self).stage is Submission,
        ensures
            final(self).wf(final(state).entries@),
            *final(self) == old(self).past(outcome.accepted > 0),
            outcome.accepted == 0 ==> final(state).entries@ == old(state).entries@,
            outcome.accepted > 0 ==> exists|mode: String|
                #![trigger mode@]
                mode@ == CloseOrderMode::LegacyLegOrderList.label() && only_one_differs(
                    old(state).entries@,
                    final(state).entries@,
                    old(self).at as int,
                    old(state).entries@[old(self).at as int].after_close_submission(
                        close_order_list_id,
                        outcome.parent_order_id,
                        close_reason,
                        mode,
                        now_text,
                    ),
                ),
    {
        let ghost before = state.entries@;
        let changed = record_close_outcome(
            &mut state.entries[self.at],
            outcome,
            close_order_list_id,
            close_reason,
            now_text,
        );
        proof {
            let at = self.at as int;
            assert(state.entries@ =~= before.update(at, state.entries@[at]));
            if !changed {
                assert(state.entries@ =~= before);
            }
        }
        self.done(changed);
    }
}

/// The number of the iteration after one, or nothing when that was the last; a limit of zero is none.
pub open spec fn iteration_after(iteration: u64, max_iterations: u64) -> Option<u64> {
    if max_iterations != 0 && iteration >= max_iterations {
        None
    } else if iteration < u64::MAX {
        Some((iteration + 1) as u64)
    } else {
        Some(u64::MAX)
    }
}

/// Returns the number of the iteration after one, or nothing when that was the last.
pub fn next_iteration(iteration: u64, max_iterations: u64) -> (next: Option<u64>)
    ensures
        next == iteration_after(iteration, max_iterations),
{
    if max_iterations != 0 && iteration >= max_iterations {
        None
    } else if iteration < u64::MAX {
        Some(iteration + 1)
    } else {
        Some(u64::MAX)
    }
}

/// A pass goes on: from every stage it leads to a later stage of the same entry, or past it.
pub open spec fn stages_left(stage: PassStage) -> int {
    match stage {
        PassStage::Entry => 4,
        PassStage::CloseOrder => 3,
        PassStage::EntryOrder => 3,
        PassStage::CloseCancellation => 2,
        PassStage::EntryCancellation => 2,
        PassStage::Quote => 2,
        PassStage::Submission => 1,
    }
}

/// The steps that a pass over `count` entries can still take.
pub open spec fn steps_left(pass: ManagementPass, count: int) -> int {
    (count - pass.at) * 4 + stages_left(pass.stage) - 4
}

/// Every reply brings a pass nearer to its end, so that a pass takes at most four steps for each
/// entry.
pub proof fn passes_end(pass: ManagementPass, next: ManagementPass, changed: bool, count: int)
    requires
        pass.at < count <= usize::MAX,
        !(pass.stage is Entry),
        next == pass.past(changed) || (next == pass.at_stage(next.stage) && match pass.stage {
            PassStage::CloseOrder => next.stage is CloseCancellation,
            PassStage::EntryOrder => next.stage is EntryCancellation || next.stage is Quote,
            PassStage::Quote => next.stage is Submission,
            _ => false,
        }),
    ensures
        0 <= steps_left(next, count) < steps_left(pass, count) <= 4 * count,
{
}

/// A pass with no iteration limit never runs out of iterations, and one with a limit ends at it.
pub proof fn iterations_end_at_their_limit(iteration: u64, max_iterations: u64)
    ensures
        max_iterations == 0 ==> iteration_after(iteration, max_iterations) is Some,
        max_iterations > 0 && iteration < max_iterations ==> iteration_after(
            iteration,
            max_iterations,
        ) == Some((iteration + 1) as u64),
        iteration_after(max_iterations, max_iterations) is None <==> max_iterations > 0,
{
}

} // verus!
