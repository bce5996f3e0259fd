//! Per-round aggregation: first candidate solution wins, explicit
//! refusals exhaust the round, the deadline bounds the wait.

use vstd::prelude::*;
use crate::types::{outcome_view, submission_view, RpcSolution, Solution, SolutionModel};

verus! {

/// One thing the aggregation loop can observe while a round is open: a
/// submission routed to the round, or the round's deadline elapsing.
#[derive(Debug)]
pub enum RoundInput {
    /// A routed submission: a candidate solution, or an explicit "no
    /// solution" reply from a notified subscriber.
    Submission(Option<RpcSolution>),
    /// The round's deadline elapsed.
    DeadlineElapsed,
}

/// The mathematical value of a `RoundInput`.
#[verifier::ext_equal]
pub enum RoundInputModel {
    Submission(Option<SolutionModel>),
    DeadlineElapsed,
}

impl View for RoundInput {
    type V = RoundInputModel;

    open spec fn view(&self) -> RoundInputModel {
        match self {
            RoundInput::Submission(s) => RoundInputModel::Submission(submission_view(*s)),
            RoundInput::DeadlineElapsed => RoundInputModel::DeadlineElapsed,
        }
    }
}

/// A round's aggregation state: still listening, with `remaining`
/// notified subscribers yet to answer, or resolved to its outcome.
#[derive(Debug)]
pub enum RoundPhase {
    Open { remaining: u64 },
    Resolved { outcome: Option<Solution> },
}

/// The mathematical value of a `RoundPhase`.
#[verifier::ext_equal]
pub enum RoundPhaseModel {
    Open { remaining: u64 },
    Resolved { outcome: Option<SolutionModel> },
}

impl View for RoundPhase {
    type V = RoundPhaseModel;

    open spec fn view(&self) -> RoundPhaseModel {
        match self {
            RoundPhase::Open { remaining } => RoundPhaseModel::Open { remaining: *remaining },
            RoundPhase::Resolved { outcome } => RoundPhaseModel::Resolved {
                outcome: outcome_view(*outcome),
            },
        }
    }
}

/// The phase a round starts in, given how many subscribers its
/// broadcast reached: zero subscribers resolve the round immediately
/// to no solution, without a deadline.
pub open spec fn initial_phase(notified_count: u64) -> RoundPhaseModel {
    if notified_count == 0 {
        RoundPhaseModel::Resolved { outcome: None }
    } else {
        RoundPhaseModel::Open { remaining: notified_count }
    }
}

/// How one submission moves a round's phase: a resolved round ignores
/// it; a candidate solution resolves the round at once; an explicit
/// "no solution" uses up one expected answer, and resolves the round
/// to no solution when it was the last one.
pub open spec fn phase_after_submission(
    p: RoundPhaseModel,
    s: Option<SolutionModel>,
) -> RoundPhaseModel {
    match p {
        RoundPhaseModel::Resolved { outcome } => RoundPhaseModel::Resolved { outcome },
        RoundPhaseModel::Open { remaining } => match s {
            Some(sol) => RoundPhaseModel::Resolved { outcome: Some(sol) },
            None => if remaining <= 1 {
                RoundPhaseModel::Resolved { outcome: None }
            } else {
                RoundPhaseModel::Open { remaining: (remaining - 1) as u64 }
            },
        },
    }
}

/// The deadline resolves an open round to no solution and leaves a
/// resolved round untouched.
pub open spec fn phase_after_deadline(p: RoundPhaseModel) -> RoundPhaseModel {
    match p {
        RoundPhaseModel::Resolved { outcome } => RoundPhaseModel::Resolved { outcome },
        RoundPhaseModel::Open { .. } => RoundPhaseModel::Resolved { outcome: None },
    }
}

/// How one input moves a round's phase.
pub open spec fn phase_after_input(p: RoundPhaseModel, e: RoundInputModel) -> RoundPhaseModel {
    match e {
        RoundInputModel::Submission(s) => phase_after_submission(p, s),
        RoundInputModel::DeadlineElapsed => phase_after_deadline(p),
    }
}

/// A whole sequence of inputs folded over a phase, earliest first.
pub open spec fn phase_after_inputs(
    p: RoundPhaseModel,
    inputs: Seq<RoundInputModel>,
) -> RoundPhaseModel
    decreases inputs.len(),
{
    if inputs.len() == 0 {
        p
    } else {
        phase_after_inputs(phase_after_input(p, inputs[0]), inputs.drop_first())
    }
}

/// The outcome a round reaches from `notified_count` notified
/// subscribers and the inputs it observes, earliest first: the first
/// resolving input decides. A round its inputs never resolve counts as
/// no solution; in a completed round the deadline is itself one of the
/// inputs, so some input always resolves it.
pub open spec fn round_outcome(
    notified_count: u64,
    inputs: Seq<RoundInputModel>,
) -> Option<SolutionModel> {
    match phase_after_inputs(initial_phase(notified_count), inputs) {
        RoundPhaseModel::Resolved { outcome } => outcome,
        RoundPhaseModel::Open { .. } => None,
    }
}

/// The models of a sequence of inputs, in order.
pub open spec fn inputs_view(inputs: Seq<RoundInput>) -> Seq<RoundInputModel> {
    inputs.map_values(|e: RoundInput| e@)
}

/// Folding inputs one at a time from the front agrees with folding the
/// last input after all the others.
pub proof fn lemma_phase_after_inputs_push(
    p: RoundPhaseModel,
    inputs: Seq<RoundInputModel>,
    e: RoundInputModel,
)
    ensures
        phase_after_inputs(p, inputs.push(e)) == phase_after_input(
            phase_after_inputs(p, inputs),
            e,
        ),
    decreases inputs.len(),
{
    if inputs.len() == 0 {
        assert(inputs.push(e)[0] == e);
        assert(inputs.push(e).drop_first() =~= Seq::<RoundInputModel>::empty());
        assert(phase_after_inputs(p, inputs.push(e)) == phase_after_inputs(
            phase_after_input(p, e),
            Seq::<RoundInputModel>::empty(),
        ));
        assert(phase_after_inputs(p, inputs) == p);
    } else {
        assert(inputs.push(e)[0] == inputs[0]);
        assert(inputs.push(e).drop_first() =~= inputs.drop_first().push(e));
        let stepped = phase_after_input(p, inputs[0]);
        lemma_phase_after_inputs_push(stepped, inputs.drop_first(), e);
        assert(phase_after_inputs(p, inputs.push(e)) == phase_after_inputs(
            stepped,
            inputs.drop_first().push(e),
        ));
        assert(phase_after_inputs(p, inputs) == phase_after_inputs(stepped, inputs.drop_first()));
    }
}

/// Folding a concatenation of inputs agrees with folding its two
/// parts in turn.
pub proof fn lemma_phase_after_inputs_append(
    p: RoundPhaseModel,
    first_part: Seq<RoundInputModel>,
    second_part: Seq<RoundInputModel>,
)
    ensures
        phase_after_inputs(p, first_part + second_part) == phase_after_inputs(
            phase_after_inputs(p, first_part),
            second_part,
        ),
    decreases first_part.len(),
{
    if first_part.len() == 0 {
        assert(first_part + second_part =~= second_part);
        assert(phase_after_inputs(p, first_part) == p);
    } else {
        assert((first_part + second_part)[0] == first_part[0]);
        assert((first_part + second_part).drop_first() =~= first_part.drop_first() + second_part);
        let stepped = phase_after_input(p, first_part[0]);
        lemma_phase_after_inputs_append(stepped, first_part.drop_first(), second_part);
        assert(phase_after_inputs(p, first_part + second_part) == phase_after_inputs(
            stepped,
            first_part.drop_first() + second_part,
        ));
        assert(phase_after_inputs(p, first_part) == phase_after_inputs(
            stepped,
            first_part.drop_first(),
        ));
    }
}

/// Aggregates one round's submissions for the slot it was started on.
pub struct RoundAggregator {
    /// The round this aggregation is for.
    pub round_id: u64,
    /// Where the round stands.
    pub phase: RoundPhase,
}

impl RoundAggregator {
    /// Opens aggregation for `round_id` after its broadcast reached
    /// `notified_count` subscribers; zero resolves immediately.
    pub fn start(round_id: u64, notified_count: u64) -> (agg: Self)
        ensures
            agg.round_id == round_id,
            agg.phase@ == initial_phase(notified_count),
    {
        if notified_count == 0 {
            RoundAggregator { round_id, phase: RoundPhase::Resolved { outcome: None } }
        } else {
            RoundAggregator { round_id, phase: RoundPhase::Open { remaining: notified_count } }
        }
    }

    /// Feeds one routed submission to the round.
    pub fn submit(&mut self, submission: Option<RpcSolution>)
        ensures
            final(self).round_id == old(self).round_id,
            final(self).phase@ == phase_after_submission(
                old(self).phase@,
                submission_view(submission),
            ),
    {
        let remaining: u64 = match &self.phase {
            RoundPhase::Resolved { .. } => {
                return ;
            },
            RoundPhase::Open { remaining } => *remaining,
        };
        match submission {
            Some(rpc) => {
                self.phase = RoundPhase::Resolved { outcome: Some(Solution::from_rpc(rpc)) };
            },
            None => {
                if remaining <= 1 {
                    self.phase = RoundPhase::Resolved { outcome: None };
                } else {
                    self.phase = RoundPhase::Open { remaining: remaining - 1 };
                }
            },
        }
    }

    /// Tells the round its deadline elapsed.
    pub fn deadline_elapsed(&mut self)
        ensures
            final(self).round_id == old(self).round_id,
            final(self).phase@ == phase_after_deadline(old(self).phase@),
    {
        match &self.phase {
            RoundPhase::Resolved { .. } => {},
            RoundPhase::Open { .. } => {
                self.phase = RoundPhase::Resolved { outcome: None };
            },
        }
    }

    /// Feeds one input, submission or deadline.
    pub fn apply(&mut self, input: RoundInput)
        ensures
            final(self).round_id == old(self).round_id,
            final(self).phase@ == phase_after_input(old(self).phase@, input@),
    {
        match input {
            RoundInput::Submission(s) => self.submit(s),
            RoundInput::DeadlineElapsed => self.deadline_elapsed(),
        }
    }

    /// Whether the round has reached its outcome.
    pub fn is_resolved(&self) -> (resolved: bool)
        ensures
            resolved == (self.phase@ is Resolved),
    {
        match &self.phase {
            RoundPhase::Resolved { .. } => true,
            RoundPhase::Open { .. } => false,
        }
    }

    /// Hands the round's outcome out; a round that never resolved
    /// counts as no solution.
    pub fn into_outcome(self) -> (res: Option<Solution>)
        ensures
            outcome_view(res) == (match self.phase@ {
                RoundPhaseModel::Resolved { outcome } => outcome,
                RoundPhaseModel::Open { .. } => None,
            }),
    {
        match self.phase {
            RoundPhase::Resolved { outcome } => outcome,
            RoundPhase::Open { .. } => None,
        }
    }
}

} // verus!
