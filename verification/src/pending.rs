//! Submissions that wait for the broker's answer to each of their orders.
use vstd::prelude::*;

use crate::admission::is_uncovered_option_permission_rejection;
use crate::admission::names_uncovered_permission;
use crate::amount::Amount;
use crate::entry::SelectedOptionsEntry;
use crate::state::SpreadRecord;
use crate::state::StrategyStateEntryDraft;
use crate::text::texts;
use crate::text_map::value_is;
use crate::text_map::TextMap;

verus! {

/// An entry submission that waits for answers.
#[derive(Clone, Debug)]
pub struct PendingEntrySubmission {
    /// Submitted candidate.
    pub entry: SelectedOptionsEntry,
    /// Market trade date.
    pub trade_date: String,
    /// Order-list ID.
    pub order_list_id: String,
    /// Submission time.
    pub submitted_at_utc: String,
    /// Contract quantity per leg.
    pub quantity: u64,
    /// Risk-capital estimate in USD.
    pub risk_capital_usd: Option<Amount>,
    /// Spread that the entry is submitted as.
    pub spread: SpreadRecord,
    /// Number of orders.
    pub order_count: usize,
    /// Accepted orders.
    pub accepted: usize,
    /// Rejected orders.
    pub rejected: usize,
    /// Whether the entry stands in the strategy state.
    pub recorded: bool,
    /// Reasons of rejections.
    pub rejection_reasons: Vec<String>,
}

/// A close submission that waits for answers.
#[derive(Clone, Debug)]
pub struct PendingCloseSubmission {
    /// Order-list ID of the entry.
    pub entry_order_list_id: String,
    /// Order-list ID of the close.
    pub close_order_list_id: String,
    /// Reason for the close.
    pub close_reason: String,
    /// Order path of the close.
    pub close_order_mode: String,
    /// Number of orders.
    pub order_count: usize,
    /// Accepted orders.
    pub accepted: usize,
    /// Rejected orders.
    pub rejected: usize,
    /// Whether the close stands in the strategy state.
    pub recorded: bool,
}

/// Client order IDs after those of one order list were taken out.
pub open spec fn ids_without(before: TextMap<String>, after: TextMap<String>, list: Seq<char>) -> bool {
    forall|c: Seq<char>|
        #[trigger] after.at(c) == if value_is(before.at(c), list) {
            None
        } else {
            before.at(c)
        }
}

/// Client order IDs after some were put under one order list.
pub open spec fn ids_with(
    before: TextMap<String>,
    after: TextMap<String>,
    ids: Seq<Seq<char>>,
    list: Seq<char>,
) -> bool {
    forall|c: Seq<char>|
        if ids.contains(c) {
            value_is(#[trigger] after.at(c), list)
        } else {
            after.at(c) == before.at(c)
        }
}

fn put_ids(ids: &mut TextMap<String>, client_order_ids: &Vec<String>, list: &String)
    requires
        old(ids).wf(),
    ensures
        final(ids).wf(),
        ids_with(*old(ids), *final(ids), texts(client_order_ids@), list@),
{
    let n: usize = client_order_ids.len();
    for i in 0..n
        invariant
            n == client_order_ids@.len(),
            ids.wf(),
            ids_with(*old(ids), *ids, texts(client_order_ids@).take(i as int), list@),
    {
        let ghost middle = *ids;
        ids.insert(client_order_ids[i].clone(), list.clone());
        proof {
            let all = texts(client_order_ids@);
            assert forall|c: Seq<char>|
                if all.take(i + 1).contains(c) {
                    value_is(#[trigger] ids.at(c), list@)
                } else {
                    ids.at(c) == old(ids).at(c)
                } by {
                crate::text_set::lemma_take_contains(all, i as int, c);
                if all.take(i as int).contains(c) {
                    assert(value_is(middle.at(c), list@));
                } else {
                    assert(middle.at(c) == old(ids).at(c));
                }
            }
        }
    }
    assert(texts(client_order_ids@).take(n as int) =~= texts(client_order_ids@));
}

// ---------------------------------------------------------------------------------------------
// Entries
// ---------------------------------------------------------------------------------------------

/// Entry submissions by order-list ID, and the order list of each of their client order IDs.
#[derive(Clone, Debug)]
pub struct PendingEntries {
    /// Submissions by order-list ID.
    pub submissions: TextMap<PendingEntrySubmission>,
    /// Order-list IDs by client order ID.
    pub client_order_ids: TextMap<String>,
}

/// What the acceptance of an order leads to.
#[derive(Clone, Debug)]
pub struct EntryAcceptance {
    /// Order-list ID of the submission.
    pub order_list_id: String,
    /// The entry to record, on the first acceptance.
    pub draft: Option<StrategyStateEntryDraft>,
    /// Whether every order was answered.
    pub finished: bool,
}

/// What the rejection of an order leads to.
#[derive(Clone, Debug)]
pub struct EntryRejection {
    /// Order-list ID of the submission.
    pub order_list_id: String,
    /// The entry to record as canceled, and why, for a naked option that was rejected outright.
    pub terminal: Option<(StrategyStateEntryDraft, &'static str)>,
    /// The submission itself, once every order was answered.
    pub answered: Option<PendingEntrySubmission>,
}

impl PendingEntrySubmission {
    /// Whether a draft records this submission.
    pub open spec fn drafts(self, draft: StrategyStateEntryDraft, parent_order_id: Option<String>) -> bool {
        &&& self.entry.drafted_as(draft)
        &&& draft.trade_date@ == self.trade_date@
        &&& draft.order_list_id@ == self.order_list_id@
        &&& draft.quantity == self.quantity
        &&& draft.risk_capital_usd == self.risk_capital_usd
        &&& draft.spread_instrument_id == self.spread.instrument_id
        &&& draft.spread_raw_symbol == self.spread.raw_symbol
        &&& draft.spread_legs@ == self.spread.legs@
        &&& draft.entry_pricing_source == self.spread.entry_pricing_source
        &&& draft.submitted_at_utc == Some(self.submitted_at_utc)
        &&& draft.parent_order_id == parent_order_id
    }

    /// Whether one answer more would leave none open.
    pub open spec fn last_answer(self) -> bool {
        self.accepted + self.rejected + 1 >= self.order_count
    }

    /// Whether a rejection now ends the entry: a naked option of which nothing was accepted.
    pub open spec fn ends_on_rejection(self) -> bool {
        self.entry is NakedOption && self.accepted == 0 && !self.recorded
    }

    fn draft(&self, parent_order_id: Option<String>) -> (draft: StrategyStateEntryDraft)
        ensures
            self.drafts(draft, parent_order_id),
    {
        let mut draft = self.entry.state_entry_draft(
            self.trade_date.as_str(),
            self.order_list_id.as_str(),
            self.quantity,
            Some(self.submitted_at_utc.clone()),
            parent_order_id,
        );
        draft.risk_capital_usd = self.risk_capital_usd;
        let spread = self.spread.copy();
        draft.spread_instrument_id = spread.instrument_id;
        draft.spread_raw_symbol = spread.raw_symbol;
        draft.spread_legs = spread.legs;
        draft.entry_pricing_source = spread.entry_pricing_source;
        draft
    }
}

/// Whether one of some rejection reasons is that of uncovered options.
pub open spec fn any_uncovered(reasons: Seq<Seq<char>>) -> bool {
    exists|i: int| 0 <= i < reasons.len() && names_uncovered_permission(#[trigger] reasons[i])
}

/// The close reason of an entry that was rejected outright.
pub open spec fn rejection_label(reasons: Seq<Seq<char>>) -> Seq<char> {
    if any_uncovered(reasons) {
        "entry_rejected_uncovered_option_permission"@
    } else {
        "entry_rejected"@
    }
}

/// Returns the close reason of an entry that was rejected outright.
pub fn rejection_close_reason(reasons: &Vec<String>) -> (label: &'static str)
    ensures
        label@ == rejection_label(texts(reasons@)),
{
    for i in 0..reasons.len()
        invariant
            forall|k: int| 0 <= k < i ==> !names_uncovered_permission(#[trigger] texts(reasons@)[k]),
    {
        if is_uncovered_option_permission_rejection(reasons[i].as_str()) {
            assert(names_uncovered_permission(texts(reasons@)[i as int]));
            return "entry_rejected_uncovered_option_permission";
        }
    }
    "entry_rejected"
}

impl PendingEntries {
    /// Whether each submission stands under its own order-list ID with an answer outstanding, and
    /// each client order ID leads to a submission.
    pub open spec fn wf(self) -> bool {
        &&& self.submissions.wf()
        &&& self.client_order_ids.wf()
        &&& forall|l: Seq<char>|
            (#[trigger] self.submissions.at(l)) matches Some(p) ==> p.order_list_id@ == l
                && p.accepted + p.rejected < p.order_count
        &&& forall|c: Seq<char>|
            (#[trigger] self.client_order_ids.at(c)) matches Some(l) ==> self.submissions.at(l@) is Some
    }

    /// Creates an empty book.
    pub fn new() -> (book: PendingEntries)
        ensures
            book.wf(),
            book.submissions@.len() == 0,
            book.client_order_ids@.len() == 0,
    {
        PendingEntries { submissions: TextMap::new(), client_order_ids: TextMap::new() }
    }

    /// The submission that a client order ID belongs to.
    pub open spec fn owner(self, client_order_id: Seq<char>) -> Option<PendingEntrySubmission> {
        match self.client_order_ids.at(client_order_id) {
            Some(list) => self.submissions.at(list@),
            None => None,
        }
    }

    /// Adds a submission with its client order IDs.
    pub fn record(&mut self, pending: PendingEntrySubmission, client_order_ids: &Vec<String>)
        requires
            old(self).wf(),
            pending.accepted + pending.rejected < pending.order_count,
        ensures
            final(self).wf(),
            final(self).submissions.at(pending.order_list_id@) == Some(pending),
            forall|l: Seq<char>|
                l != pending.order_list_id@ ==> #[trigger] final(self).submissions.at(l) == old(self).submissions.at(l),
            ids_with(
                old(self).client_order_ids,
                final(self).client_order_ids,
                texts(client_order_ids@),
                pending.order_list_id@,
            ),
    {
        put_ids(&mut self.client_order_ids, client_order_ids, &pending.order_list_id);
        let ghost list = pending.order_list_id@;
        self.submissions.insert(pending.order_list_id.clone(), pending);
        proof {
            assert forall|c: Seq<char>|
                (#[trigger] self.client_order_ids.at(c)) is Some implies self.submissions.at(
                self.client_order_ids.at(c)->0@,
            ) is Some by {
                if texts(client_order_ids@).contains(c) {
                    assert(value_is(self.client_order_ids.at(c), list));
                } else {
                    assert(self.client_order_ids.at(c) == old(self).client_order_ids.at(c));
                }
            }
        }
    }

    /// Takes a submission out with its client order IDs.
    pub fn remove(&mut self, order_list_id: &str) -> (removed: Option<PendingEntrySubmission>)
        requires
            old(self).wf(),
        ensures
            final(self).wf(),
            removed == old(self).submissions.at(order_list_id@),
            final(self).submissions.at(order_list_id@) is None,
            forall|l: Seq<char>|
                l != order_list_id@ ==> #[trigger] final(self).submissions.at(l) == old(self).submissions.at(l),
            ids_without(
                old(self).client_order_ids,
                final(self).client_order_ids,
                order_list_id@,
            ),
    {
        let removed = self.submissions.remove(order_list_id);
        self.client_order_ids.remove_values(order_list_id);
        proof {
            assert forall|c: Seq<char>|
                (#[trigger] self.client_order_ids.at(c)) is Some implies self.submissions.at(
                self.client_order_ids.at(c)->0@,
            ) is Some by {
                assert(old(self).client_order_ids.at(c) == self.client_order_ids.at(c));
            }
        }
        removed
    }

    /// Counts the acceptance of an order; nothing is known of an order that is not pending.
    pub fn accept(&mut self, client_order_id: &str, venue_order_id: &String) -> (outcome: Option<
        EntryAcceptance,
    >)
        requires
            old(self).wf(),
        ensures
            final(self).wf(),
            match old(self).owner(client_order_id@) {
                None => outcome is None && *final(self) == *old(self),
                Some(p) => {
                    &&& outcome is Some
                    &&& outcome->0.order_list_id@ == p.order_list_id@
                    &&& outcome->0.finished == p.last_answer()
                    &&& match outcome->0.draft {
                        Some(draft) => !p.recorded && p.drafts(draft, Some(*venue_order_id)),
                        None => p.recorded,
                    }
                    &&& accepted_book(*old(self), *final(self), p)
                },
            },
    {
        let list: String = match self.client_order_ids.get(client_order_id) {
            Some(list) => list.clone(),
            None => {
                return None;
            },
        };
        let mut pending = match self.submissions.remove(list.as_str()) {
            Some(pending) => pending,
            None => {
                assert(old(self).submissions.at(list@) is Some);
                return None;
            },
        };
        let ghost p = pending;
        pending.accepted = pending.accepted + 1;
        let draft = if pending.recorded {
            None
        } else {
            Some(pending.draft(Some(venue_order_id.clone())))
        };
        pending.recorded = true;
        let finished: bool = pending.accepted + pending.rejected >= pending.order_count;
        if finished {
            self.client_order_ids.remove_values(list.as_str());
        } else {
            self.submissions.insert(list.clone(), pending);
        }
        proof {
            assert(old(self).owner(client_order_id@) == Some(p));
            assert forall|c: Seq<char>|
                (#[trigger] self.client_order_ids.at(c)) is Some implies self.submissions.at(
                self.client_order_ids.at(c)->0@,
            ) is Some by {
                assert(old(self).client_order_ids.at(c) == self.client_order_ids.at(c));
                assert(old(self).submissions.at(self.client_order_ids.at(c)->0@) is Some);
            }
            assert forall|l: Seq<char>|
                (#[trigger] self.submissions.at(l)) is Some implies self.submissions.at(l)->0.order_list_id@
                == l && self.submissions.at(l)->0.accepted + self.submissions.at(l)->0.rejected
                < self.submissions.at(l)->0.order_count by {
                if l != list@ {
                    assert(old(self).submissions.at(l) == self.submissions.at(l));
                }
            }
        }
        Some(EntryAcceptance { order_list_id: list, draft, finished })
    }

    /// Counts the rejection of an order; nothing is known of an order that is not pending.
    pub fn reject(&mut self, client_order_id: &str, reason: &str) -> (outcome: Option<
        EntryRejection,
    >)
        requires
            old(self).wf(),
        ensures
            final(self).wf(),
            match old(self).owner(client_order_id@) {
                None => outcome is None && *final(self) == *old(self),
                Some(p) => {
                    let reasons = texts(p.rejection_reasons@).push(reason@);
                    &&& outcome is Some
                    &&& outcome->0.order_list_id@ == p.order_list_id@
                    &&& match outcome->0.terminal {
                        Some((draft, label)) => p.ends_on_rejection() && p.drafts(draft, None)
                            && label@ == rejection_label(reasons),
                        None => !p.ends_on_rejection(),
                    }
                    &&& match outcome->0.answered {
                        Some(q) => p.last_answer() && counted_rejection(p, q, reason@),
                        None => !p.last_answer(),
                    }
                    &&& rejected_book(*old(self), *final(self), p, reason@)
                },
            },
    {
        let list: String = match self.client_order_ids.get(client_order_id) {
            Some(list) => list.clone(),
            None => {
                return None;
            },
        };
        let mut pending = match self.submissions.remove(list.as_str()) {
            Some(pending) => pending,
            None => {
                assert(old(self).submissions.at(list@) is Some);
                return None;
            },
        };
        let ghost p = pending;
        pending.rejected = pending.rejected + 1;
        pending.rejection_reasons.push(reason.to_owned());
        assert(texts(pending.rejection_reasons@) =~= texts(p.rejection_reasons@).push(reason@));
        let terminal = if pending.entry.is_naked_option() && pending.accepted == 0
            && !pending.recorded {
            let label = rejection_close_reason(&pending.rejection_reasons);
            let draft = pending.draft(None);
            pending.recorded = true;
            Some((draft, label))
        } else {
            None
        };
        let finished: bool = pending.accepted + pending.rejected >= pending.order_count;
        proof {
            assert(counted_rejection(p, pending, reason@));
        }
        let answered = if finished {
            self.client_order_ids.remove_values(list.as_str());
            Some(pending)
        } else {
            self.submissions.insert(list.clone(), pending);
            None
        };
        proof {
            assert(old(self).owner(client_order_id@) == Some(p));
            assert forall|c: Seq<char>|
                (#[trigger] self.client_order_ids.at(c)) is Some implies self.submissions.at(
                self.client_order_ids.at(c)->0@,
            ) is Some by {
                assert(old(self).client_order_ids.at(c) == self.client_order_ids.at(c));
                assert(old(self).submissions.at(self.client_order_ids.at(c)->0@) is Some);
            }
            assert forall|l: Seq<char>|
                (#[trigger] self.submissions.at(l)) is Some implies self.submissions.at(l)->0.order_list_id@
                == l && self.submissions.at(l)->0.accepted + self.submissions.at(l)->0.rejected
                < self.submissions.at(l)->0.order_count by {
                if l != list@ {
                    assert(old(self).submissions.at(l) == self.submissions.at(l));
                }
            }
        }
        Some(EntryRejection { order_list_id: list, terminal, answered })
    }
}

/// Whether `after` is the book with one acceptance more for a submission: the submission leaves with
/// its client order IDs once every order was answered.
pub open spec fn accepted_book(
    before: PendingEntries,
    after: PendingEntries,
    p: PendingEntrySubmission,
) -> bool {
    &&& after.submissions.at(p.order_list_id@) == if p.last_answer() {
        None
    } else {
        Some(
            PendingEntrySubmission {
                accepted: (p.accepted + 1) as usize,
                recorded: true,
                ..p
            },
        )
    }
    &&& forall|l: Seq<char>|
        l != p.order_list_id@ ==> #[trigger] after.submissions.at(l) == before.submissions.at(l)
    &&& if p.last_answer() {
        ids_without(before.client_order_ids, after.client_order_ids, p.order_list_id@)
    } else {
        after.client_order_ids == before.client_order_ids
    }
}

/// Whether `after` is the book with one rejection more for a submission: the submission leaves with
/// its client order IDs once every order was answered.
pub open spec fn rejected_book(
    before: PendingEntries,
    after: PendingEntries,
    p: PendingEntrySubmission,
    reason: Seq<char>,
) -> bool {
    &&& match after.submissions.at(p.order_list_id@) {
        Some(q) => !p.last_answer() && counted_rejection(p, q, reason),
        None => p.last_answer(),
    }
    &&& forall|l: Seq<char>|
        l != p.order_list_id@ ==> #[trigger] after.submissions.at(l) == before.submissions.at(l)
    &&& if p.last_answer() {
        ids_without(before.client_order_ids, after.client_order_ids, p.order_list_id@)
    } else {
        after.client_order_ids == before.client_order_ids
    }
}

/// Whether `after` is the book with one answer more for a close: the close leaves with its client
/// order IDs once every order was answered.
pub open spec fn answered_book(
    before: PendingCloses,
    after: PendingCloses,
    p: PendingCloseSubmission,
    accepted: bool,
) -> bool {
    &&& after.submissions.at(p.close_order_list_id@) == if p.last_answer() {
        None
    } else {
        Some(p.answered(accepted))
    }
    &&& forall|l: Seq<char>|
        l != p.close_order_list_id@ ==> #[trigger] after.submissions.at(l) == before.submissions.at(l)
    &&& if p.last_answer() {
        ids_without(before.client_order_ids, after.client_order_ids, p.close_order_list_id@)
    } else {
        after.client_order_ids == before.client_order_ids
    }
}

/// Once the last order of a submission is answered, none of its client order IDs is pending, and
/// until then each of them still is.
pub proof fn answered_orders_are_forgotten(
    before: PendingEntries,
    after: PendingEntries,
    p: PendingEntrySubmission,
    client_order_id: Seq<char>,
)
    requires
        before.wf(),
        after.wf(),
        accepted_book(before, after, p),
        before.submissions.at(p.order_list_id@) == Some(p),
        before.owner(client_order_id) == Some(p),
    ensures
        after.owner(client_order_id) is None <==> p.last_answer(),
{
    assert(before.client_order_ids.at(client_order_id) is Some);
    let list = before.client_order_ids.at(client_order_id)->0@;
    assert(before.submissions.at(list) == Some(p));
    assert(p.order_list_id@ == list);
    assert(value_is(before.client_order_ids.at(client_order_id), p.order_list_id@));
    assert(after.client_order_ids.at(client_order_id) is None || !p.last_answer());
}

/// Whether `after` is a submission with one rejection more.
pub open spec fn counted_rejection(
    before: PendingEntrySubmission,
    after: PendingEntrySubmission,
    reason: Seq<char>,
) -> bool {
    &&& texts(after.rejection_reasons@) == texts(before.rejection_reasons@).push(reason)
    &&& after == (PendingEntrySubmission {
        rejected: (before.rejected + 1) as usize,
        recorded: before.recorded || before.ends_on_rejection(),
        rejection_reasons: after.rejection_reasons,
        ..before
    })
}

// ---------------------------------------------------------------------------------------------
// Closes
// ---------------------------------------------------------------------------------------------

/// Close submissions by order-list ID, and the order list of each of their client order IDs.
#[derive(Clone, Debug)]
pub struct PendingCloses {
    /// Submissions by order-list ID.
    pub submissions: TextMap<PendingCloseSubmission>,
    /// Order-list IDs by client order ID.
    pub client_order_ids: TextMap<String>,
}

/// What an answer to a close order leads to.
#[derive(Clone, Debug)]
pub struct CloseAnswer {
    /// The submission with the answer counted.
    pub pending: PendingCloseSubmission,
    /// Whether the close is to be recorded in the strategy state.
    pub record: bool,
    /// Whether every order was answered.
    pub finished: bool,
}

impl PendingCloseSubmission {
    /// Whether one answer more would leave none open.
    pub open spec fn last_answer(self) -> bool {
        self.accepted + self.rejected + 1 >= self.order_count
    }

    /// The submission with one answer more.
    pub open spec fn answered(self, accepted: bool) -> PendingCloseSubmission {
        if accepted {
            PendingCloseSubmission {
                accepted: (self.accepted + 1) as usize,
                recorded: true,
                ..self
            }
        } else {
            PendingCloseSubmission { rejected: (self.rejected + 1) as usize, ..self }
        }
    }

    fn copy(&self) -> (copy: PendingCloseSubmission)
        ensures
            copy == *self,
    {
        PendingCloseSubmission {
            entry_order_list_id: self.entry_order_list_id.clone(),
            close_order_list_id: self.close_order_list_id.clone(),
            close_reason: self.close_reason.clone(),
            close_order_mode: self.close_order_mode.clone(),
            order_count: self.order_count,
            accepted: self.accepted,
            rejected: self.rejected,
            recorded: self.recorded,
        }
    }
}

impl PendingCloses {
    /// Whether each submission stands under its own order-list ID with an answer outstanding, and
    /// each client order ID leads to a submission.
    pub open spec fn wf(self) -> bool {
        &&& self.submissions.wf()
        &&& self.client_order_ids.wf()
        &&& forall|l: Seq<char>|
            (#[trigger] self.submissions.at(l)) matches Some(p) ==> p.close_order_list_id@ == l
                && p.accepted + p.rejected < p.order_count
        &&& forall|c: Seq<char>|
            (#[trigger] self.client_order_ids.at(c)) matches Some(l) ==> self.submissions.at(l@) is Some
    }

    /// Creates an empty book.
    pub fn new() -> (book: PendingCloses)
        ensures
            book.wf(),
            book.submissions@.len() == 0,
            book.client_order_ids@.len() == 0,
    {
        PendingCloses { submissions: TextMap::new(), client_order_ids: TextMap::new() }
    }

    /// The submission that a client order ID belongs to.
    pub open spec fn owner(self, client_order_id: Seq<char>) -> Option<PendingCloseSubmission> {
        match self.client_order_ids.at(client_order_id) {
            Some(list) => self.submissions.at(list@),
            None => None,
        }
    }

    /// Adds a submission with its client order IDs.
    pub fn record(&mut self, pending: PendingCloseSubmission, client_order_ids: &Vec<String>)
        requires
            old(self).wf(),
            pending.accepted + pending.rejected < pending.order_count,
        ensures
            final(self).wf(),
            final(self).submissions.at(pending.close_order_list_id@) == Some(pending),
            forall|l: Seq<char>|
                l != pending.close_order_list_id@ ==> #[trigger] final(self).submissions.at(l) == old(self).submissions.at(l),
            ids_with(
                old(self).client_order_ids,
                final(self).client_order_ids,
                texts(client_order_ids@),
                pending.close_order_list_id@,
            ),
    {
        put_ids(&mut self.client_order_ids, client_order_ids, &pending.close_order_list_id);
        let ghost list = pending.close_order_list_id@;
        self.submissions.insert(pending.close_order_list_id.clone(), pending);
        proof {
            assert forall|c: Seq<char>|
                (#[trigger] self.client_order_ids.at(c)) is Some implies self.submissions.at(
                self.client_order_ids.at(c)->0@,
            ) is Some by {
                if texts(client_order_ids@).contains(c) {
                    assert(value_is(self.client_order_ids.at(c), list));
                } else {
                    assert(self.client_order_ids.at(c) == old(self).client_order_ids.at(c));
                }
            }
        }
    }

    /// Takes a submission out with its client order IDs.
    pub fn remove(&mut self, close_order_list_id: &str) -> (removed: Option<PendingCloseSubmission>)
        requires
            old(self).wf(),
        ensures
            final(self).wf(),
            removed == old(self).submissions.at(close_order_list_id@),
            final(self).submissions.at(close_order_list_id@) is None,
            forall|l: Seq<char>|
                l != close_order_list_id@ ==> #[trigger] final(self).submissions.at(l) == old(self).submissions.at(l),
            ids_without(
                old(self).client_order_ids,
                final(self).client_order_ids,
                close_order_list_id@,
            ),
    {
        let removed = self.submissions.remove(close_order_list_id);
        self.client_order_ids.remove_values(close_order_list_id);
        proof {
            assert forall|c: Seq<char>|
                (#[trigger] self.client_order_ids.at(c)) is Some implies self.submissions.at(
                self.client_order_ids.at(c)->0@,
            ) is Some by {
                assert(old(self).client_order_ids.at(c) == self.client_order_ids.at(c));
            }
        }
        removed
    }

    /// Counts an answer to an order; nothing is known of an order that is not pending.
    pub fn answer(&mut self, client_order_id: &str, accepted: bool) -> (outcome: Option<CloseAnswer>)
        requires
            old(self).wf(),
        ensures
            final(self).wf(),
            match old(self).owner(client_order_id@) {
                None => outcome is None && *final(self) == *old(self),
                Some(p) => {
                    &&& outcome is Some
                    &&& outcome->0.pending == p.answered(accepted)
                    &&& outcome->0.record == (accepted && !p.recorded)
                    &&& outcome->0.finished == p.last_answer()
                    &&& answered_book(*old(self), *final(self), p, accepted)
                },
            },
    {
        let list: String = match self.client_order_ids.get(client_order_id) {
            Some(list) => list.clone(),
            None => {
                return None;
            },
        };
        let mut pending = match self.submissions.remove(list.as_str()) {
            Some(pending) => pending,
            None => {
                assert(old(self).submissions.at(list@) is Some);
                return None;
            },
        };
        let ghost p = pending;
        let record: bool = accepted && !pending.recorded;
        if accepted {
            pending.accepted = pending.accepted + 1;
            pending.recorded = true;
        } else {
            pending.rejected = pending.rejected + 1;
        }
        let finished: bool = pending.accepted + pending.rejected >= pending.order_count;
        let copy = pending.copy();
        if finished {
            self.client_order_ids.remove_values(list.as_str());
        } else {
            self.submissions.insert(list.clone(), pending);
        }
        proof {
            assert(old(self).owner(client_order_id@) == Some(p));
            assert forall|c: Seq<char>|
                (#[trigger] self.client_order_ids.at(c)) is Some implies self.submissions.at(
                self.client_order_ids.at(c)->0@,
            ) is Some by {
                assert(old(self).client_order_ids.at(c) == self.client_order_ids.at(c));
                assert(old(self).submissions.at(self.client_order_ids.at(c)->0@) is Some);
            }
            assert forall|l: Seq<char>|
                (#[trigger] self.submissions.at(l)) is Some implies self.submissions.at(
                l,
            )->0.close_order_list_id@ == l && self.submissions.at(l)->0.accepted
                + self.submissions.at(l)->0.rejected < self.submissions.at(l)->0.order_count by {
                if l != list@ {
                    assert(old(self).submissions.at(l) == self.submissions.at(l));
                }
            }
        }
        Some(CloseAnswer { pending: copy, record, finished })
    }
}

} // verus!
