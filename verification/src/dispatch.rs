//! Sequencing rounds one at a time: the pending-round bookkeeping that
//! routes submissions, and the per-round aggregation drive.

use vstd::prelude::*;
use crate::laws::lemma_zero_subscriber_fast_path;
use crate::round::{
    initial_phase, inputs_view, lemma_phase_after_inputs_push, phase_after_inputs, round_outcome,
    RoundAggregator, RoundInput,
};
use crate::types::{outcome_view, NewSlotInfo, ProposedProofOfSpaceResult, Solution};

verus! {

/// Bookkeeping for the one round the dispatch loop may have in
/// flight. A submission is routed only while its round is pending; at
/// most one round is pending at any instant, because rounds are
/// processed strictly one at a time.
pub struct RoundCoordinator {
    pending: Option<u64>,
}

impl View for RoundCoordinator {
    type V = Option<u64>;

    closed spec fn view(&self) -> Option<u64> {
        self.pending
    }
}

impl RoundCoordinator {
    /// A coordinator with no round in flight.
    pub fn new() -> (c: Self)
        ensures
            c@ is None,
    {
        RoundCoordinator { pending: None }
    }

    /// Marks `info`'s slot as the round now accepting submissions.
    pub fn begin_round(&mut self, info: &NewSlotInfo)
        ensures
            final(self)@ == Some(info.slot_number),
    {
        self.pending = Some(info.slot_number);
    }

    /// Closes the pending round; from here on a submission for it
    /// routes nowhere.
    pub fn finish_round(&mut self)
        ensures
            final(self)@ is None,
    {
        self.pending = None;
    }

    /// Whether a farmer's reply should be routed to the pending
    /// round's inlet. A reply for an unknown or already-resolved slot
    /// is dropped silently; the submitter is told nothing either way.
    pub fn routes(&self, proposal: &ProposedProofOfSpaceResult) -> (deliver: bool)
        ensures
            deliver == (self@ == Some(proposal.slot_number)),
    {
        match &self.pending {
            Some(slot) => *slot == proposal.slot_number,
            None => false,
        }
    }

    /// Drives one round end to end: records the pending entry, folds
    /// the round's inputs to its outcome, and clears the entry — on
    /// every path — before returning, so that later submissions for
    /// this slot route nowhere.
    pub fn process_round(
        &mut self,
        info: &NewSlotInfo,
        notified_count: u64,
        inputs: Vec<RoundInput>,
    ) -> (res: Option<Solution>)
        ensures
            final(self)@ is None,
            outcome_view(res) == round_outcome(notified_count, inputs_view(inputs@)),
            notified_count == 0 ==> res is None,
    {
        proof {
            if notified_count == 0 {
                lemma_zero_subscriber_fast_path(inputs_view(inputs@));
            }
        }
        self.begin_round(info);
        let res = run_round(info.slot_number, notified_count, inputs);
        self.finish_round();
        res
    }
}

/// Folds one round's inputs, earliest first, into the outcome the
/// round resolves to, starting from `notified_count` notified
/// subscribers. Inputs after the first resolving one leave the round
/// unchanged, so feeding them is harmless.
pub fn run_round(round_id: u64, notified_count: u64, inputs: Vec<RoundInput>) -> (res: Option<
    Solution,
>)
    ensures
        outcome_view(res) == round_outcome(notified_count, inputs_view(inputs@)),
{
    let ghost all = inputs@;
    let mut rest = inputs;
    let mut agg = RoundAggregator::start(round_id, notified_count);
    let ghost mut k: int = 0;
    while rest.len() > 0
        invariant
            0 <= k <= all.len(),
            rest@ == all.skip(k),
            agg.phase@ == phase_after_inputs(initial_phase(notified_count), inputs_view(all).take(k)),
        decreases rest@.len(),
    {
        let e = rest.remove(0);
        proof {
            assert(e == all[k]);
            assert(rest@ =~= all.skip(k + 1));
            lemma_phase_after_inputs_push(
                initial_phase(notified_count),
                inputs_view(all).take(k),
                e@,
            );
            assert(inputs_view(all).take(k).push(inputs_view(all)[k]) =~= inputs_view(all).take(
                k + 1,
            ));
        }
        agg.apply(e);
        proof {
            k = k + 1;
        }
    }
    proof {
        assert(inputs_view(all).take(k) =~= inputs_view(all));
    }
    agg.into_outcome()
}

} // verus!
