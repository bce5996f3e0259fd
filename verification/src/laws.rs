//! The guarantees the round machinery gives, each stated over the
//! round model and proved once and for all.

use vstd::prelude::*;
use crate::registry::RegistryModel;
use crate::round::{
    initial_phase, lemma_phase_after_inputs_append, lemma_phase_after_inputs_push,
    phase_after_input, phase_after_inputs, phase_after_submission, round_outcome, RoundInputModel,
    RoundPhaseModel,
};
use crate::types::SolutionModel;

verus! {

/// No double resolution: a resolved round is terminal. Whatever inputs
/// arrive after the resolving one — further submissions or a late
/// deadline — the phase, and with it the round's one outcome, never
/// changes again.
pub proof fn lemma_no_double_resolution(p: RoundPhaseModel, inputs: Seq<RoundInputModel>)
    requires
        p is Resolved,
    ensures
        phase_after_inputs(p, inputs) == p,
    decreases inputs.len(),
{
    if inputs.len() > 0 {
        assert(phase_after_input(p, inputs[0]) == p);
        lemma_no_double_resolution(p, inputs.drop_first());
    }
}

/// Zero-subscriber fast path: a round whose broadcast reached nobody
/// is resolved to no solution from the start — before any input, so
/// without waiting for any deadline — and stays so.
pub proof fn lemma_zero_subscriber_fast_path(inputs: Seq<RoundInputModel>)
    ensures
        initial_phase(0) == (RoundPhaseModel::Resolved { outcome: None::<SolutionModel> }),
        phase_after_inputs(initial_phase(0), inputs) == (RoundPhaseModel::Resolved {
            outcome: None::<SolutionModel>,
        }),
        round_outcome(0, inputs) == None::<SolutionModel>,
{
    lemma_no_double_resolution(initial_phase(0), inputs);
}

/// While only explicit "no solution" replies have arrived, and fewer
/// of them than subscribers were notified, the round is still open,
/// with exactly the rest outstanding.
pub proof fn lemma_open_after_refusals(notified_count: u64, inputs: Seq<RoundInputModel>, k: int)
    requires
        0 <= k <= inputs.len(),
        k < notified_count,
        forall|j: int|
            0 <= j < k ==> inputs[j] == RoundInputModel::Submission(None::<SolutionModel>),
    ensures
        phase_after_inputs(initial_phase(notified_count), inputs.take(k))
            == (RoundPhaseModel::Open { remaining: (notified_count - k) as u64 }),
    decreases k,
{
    if k == 0 {
        assert(inputs.take(0) =~= Seq::<RoundInputModel>::empty());
    } else {
        lemma_open_after_refusals(notified_count, inputs, k - 1);
        assert(inputs.take(k) =~= inputs.take(k - 1).push(inputs[k - 1]));
        lemma_phase_after_inputs_push(
            initial_phase(notified_count),
            inputs.take(k - 1),
            inputs[k - 1],
        );
    }
}

/// First solution wins: if the input at position `k` is the first
/// candidate solution, everything before it is an explicit refusal,
/// fewer refusals arrived than subscribers were notified, and no
/// deadline came earlier, then the round resolves to exactly that
/// solution — whatever arrives afterwards.
pub proof fn lemma_first_solution_wins(
    notified_count: u64,
    inputs: Seq<RoundInputModel>,
    k: int,
    sol: SolutionModel,
)
    requires
        0 <= k < inputs.len(),
        k < notified_count,
        inputs[k] == RoundInputModel::Submission(Some(sol)),
        forall|j: int|
            0 <= j < k ==> inputs[j] == RoundInputModel::Submission(None::<SolutionModel>),
    ensures
        phase_after_inputs(initial_phase(notified_count), inputs) == (RoundPhaseModel::Resolved {
            outcome: Some(sol),
        }),
        round_outcome(notified_count, inputs) == Some(sol),
{
    let start = initial_phase(notified_count);
    lemma_open_after_refusals(notified_count, inputs, k);
    lemma_phase_after_inputs_push(start, inputs.take(k), inputs[k]);
    assert(inputs.take(k + 1) =~= inputs.take(k).push(inputs[k]));
    assert(phase_after_inputs(start, inputs.take(k + 1)) == (RoundPhaseModel::Resolved {
        outcome: Some(sol),
    }));
    assert(inputs =~= inputs.take(k + 1) + inputs.skip(k + 1));
    lemma_phase_after_inputs_append(start, inputs.take(k + 1), inputs.skip(k + 1));
    lemma_no_double_resolution(
        RoundPhaseModel::Resolved { outcome: Some(sol) },
        inputs.skip(k + 1),
    );
}

/// Exhaustion: once as many explicit refusals have arrived as
/// subscribers were notified — with no earlier solution and no earlier
/// deadline — the round is resolved to no solution right then, without
/// waiting for the deadline, and whatever arrives afterwards changes
/// nothing.
pub proof fn lemma_exhaustion(notified_count: u64, inputs: Seq<RoundInputModel>)
    requires
        1 <= notified_count,
        notified_count <= inputs.len(),
        forall|j: int|
            0 <= j < notified_count ==> inputs[j] == RoundInputModel::Submission(
                None::<SolutionModel>,
            ),
    ensures
        phase_after_inputs(initial_phase(notified_count), inputs.take(notified_count as int))
            == (RoundPhaseModel::Resolved { outcome: None::<SolutionModel> }),
        round_outcome(notified_count, inputs) == None::<SolutionModel>,
{
    let start = initial_phase(notified_count);
    let n = notified_count as int;
    lemma_open_after_refusals(notified_count, inputs, n - 1);
    lemma_phase_after_inputs_push(start, inputs.take(n - 1), inputs[n - 1]);
    assert(inputs.take(n) =~= inputs.take(n - 1).push(inputs[n - 1]));
    assert(phase_after_inputs(start, inputs.take(n)) == (RoundPhaseModel::Resolved {
        outcome: None::<SolutionModel>,
    }));
    assert(inputs =~= inputs.take(n) + inputs.skip(n));
    lemma_phase_after_inputs_append(start, inputs.take(n), inputs.skip(n));
    lemma_no_double_resolution(
        RoundPhaseModel::Resolved { outcome: None::<SolutionModel> },
        inputs.skip(n),
    );
}

/// Deadline path: if the deadline elapses while the round is still
/// open — only refusals before it, and fewer of them than subscribers
/// were notified — the round resolves to no solution at the deadline,
/// and whatever arrives afterwards changes nothing.
pub proof fn lemma_deadline_resolves_open_round(
    notified_count: u64,
    inputs: Seq<RoundInputModel>,
    k: int,
)
    requires
        1 <= notified_count,
        0 <= k < inputs.len(),
        k < notified_count,
        inputs[k] == RoundInputModel::DeadlineElapsed,
        forall|j: int|
            0 <= j < k ==> inputs[j] == RoundInputModel::Submission(None::<SolutionModel>),
    ensures
        phase_after_inputs(initial_phase(notified_count), inputs.take(k + 1))
            == (RoundPhaseModel::Resolved { outcome: None::<SolutionModel> }),
        round_outcome(notified_count, inputs) == None::<SolutionModel>,
{
    let start = initial_phase(notified_count);
    lemma_open_after_refusals(notified_count, inputs, k);
    lemma_phase_after_inputs_push(start, inputs.take(k), inputs[k]);
    assert(inputs.take(k + 1) =~= inputs.take(k).push(inputs[k]));
    assert(inputs =~= inputs.take(k + 1) + inputs.skip(k + 1));
    lemma_phase_after_inputs_append(start, inputs.take(k + 1), inputs.skip(k + 1));
    lemma_no_double_resolution(
        RoundPhaseModel::Resolved { outcome: None::<SolutionModel> },
        inputs.skip(k + 1),
    );
}

/// Stale submissions are no-ops: a submission reaching a round that
/// has already resolved leaves the phase — and so the already-produced
/// outcome — exactly as it was.
pub proof fn lemma_stale_submission_noop(p: RoundPhaseModel, s: Option<SolutionModel>)
    requires
        p is Resolved,
    ensures
        phase_after_submission(p, s) == p,
{
}

/// Registry independence: a round's notified count is captured when
/// the broadcast snapshot of the registry is taken, and the round's
/// resolution is a function of that captured count and the inputs
/// alone. Removing a handle mid-round therefore cannot touch the
/// in-flight round; it is seen only by the snapshots — and so the
/// rounds — that come after, whose live set is smaller by exactly the
/// removed handle.
pub proof fn lemma_registry_independence(
    reg: RegistryModel,
    handle: u64,
    captured: u64,
    inputs: Seq<RoundInputModel>,
)
    requires
        captured == reg.live.len(),
    ensures
        round_outcome(captured, inputs) == round_outcome(reg.live.len() as u64, inputs),
        reg.live.contains(handle) ==> reg.live.remove_value(handle).len() == reg.live.len() - 1,
        !reg.live.contains(handle) ==> reg.live.remove_value(handle) == reg.live,
{
    reg.live.index_of_first_ensures(handle);
}

/// Repeat-sender acceptance: the aggregator tracks no per-subscriber
/// identity, so with at least two subscribers notified, an explicit
/// refusal followed by a candidate solution — even from the same
/// sender — resolves the round to that later solution.
pub proof fn lemma_repeat_sender_accepted(
    notified_count: u64,
    sol: SolutionModel,
    rest: Seq<RoundInputModel>,
)
    requires
        notified_count >= 2,
    ensures
        round_outcome(
            notified_count,
            seq![
                RoundInputModel::Submission(None::<SolutionModel>),
                RoundInputModel::Submission(Some(sol)),
            ] + rest,
        ) == Some(sol),
{
    let inputs = seq![
        RoundInputModel::Submission(None::<SolutionModel>),
        RoundInputModel::Submission(Some(sol)),
    ] + rest;
    assert(inputs[0] == RoundInputModel::Submission(None::<SolutionModel>));
    assert(inputs[1] == RoundInputModel::Submission(Some(sol)));
    lemma_first_solution_wins(notified_count, inputs, 1, sol);
}

} // verus!
