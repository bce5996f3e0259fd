use poc_rpc::dispatch::{run_round, RoundCoordinator};
use poc_rpc::round::{RoundAggregator, RoundInput};
use poc_rpc::types::{NewSlotInfo, ProposedProofOfSpaceResult, RpcSolution, Solution};

fn slot_info(slot_number: u64) -> NewSlotInfo {
    NewSlotInfo { slot_number, challenge: [1, 2, 3, 4, 5, 6, 7, 8], solution_range: 1000 }
}

fn rpc_solution(nonce: u64) -> RpcSolution {
    RpcSolution {
        public_key: [9u8; 32],
        nonce,
        encoding: vec![10, 11, 12],
        signature: vec![13, 14],
        tag: [8, 7, 6, 5, 4, 3, 2, 1],
    }
}

fn refusal() -> RoundInput {
    RoundInput::Submission(None)
}

fn submission(nonce: u64) -> RoundInput {
    RoundInput::Submission(Some(rpc_solution(nonce)))
}

#[test]
fn zero_subscribers_resolve_none() {
    let mut coordinator = RoundCoordinator::new();
    let outcome = coordinator.process_round(&slot_info(1), 0, Vec::new());
    assert!(outcome.is_none());
}

#[test]
fn zero_subscribers_ignore_later_inputs() {
    let outcome = run_round(2, 0, vec![submission(42), RoundInput::DeadlineElapsed]);
    assert!(outcome.is_none());
}

#[test]
fn first_solution_wins_among_refusals() {
    // Three subscribers: S2 refuses first, S1 submits a solution, S3
    // refuses afterwards; the round resolves to S1's solution.
    let inputs = vec![refusal(), submission(77), refusal()];
    let outcome = run_round(3, 3, inputs).expect("round must resolve to the solution");
    assert_eq!(outcome.nonce, 77);
    assert_eq!(outcome.public_key, [9u8; 32]);
    assert_eq!(outcome.encoding, vec![10, 11, 12]);
    assert_eq!(outcome.signature, vec![13, 14]);
    assert_eq!(outcome.tag, [8, 7, 6, 5, 4, 3, 2, 1]);
}

#[test]
fn exhaustion_after_all_refusals() {
    let inputs = vec![refusal(), refusal(), refusal()];
    let outcome = run_round(4, 3, inputs);
    assert!(outcome.is_none());
}

#[test]
fn deadline_resolves_silent_round() {
    let outcome = run_round(5, 2, vec![RoundInput::DeadlineElapsed]);
    assert!(outcome.is_none());
}

#[test]
fn no_double_resolution_with_late_inputs() {
    // The first solution resolves the round; a second solution and a
    // late deadline change nothing.
    let inputs = vec![submission(1), submission(2), RoundInput::DeadlineElapsed];
    let outcome = run_round(6, 3, inputs).expect("round must resolve to the first solution");
    assert_eq!(outcome.nonce, 1);
}

#[test]
fn repeat_sender_later_solution_wins() {
    // One of two notified subscribers first refuses, then submits a
    // solution for the same round; the later valid submission wins.
    let inputs = vec![refusal(), submission(5)];
    let outcome = run_round(7, 2, inputs).expect("round must resolve to the later solution");
    assert_eq!(outcome.nonce, 5);
}

#[test]
fn stale_submission_is_a_noop() {
    let mut agg = RoundAggregator::start(8, 1);
    agg.submit(Some(rpc_solution(3)));
    assert!(agg.is_resolved());
    // The round has resolved; a later submission must not change it.
    agg.submit(Some(rpc_solution(99)));
    agg.submit(None);
    let outcome = agg.into_outcome().expect("resolved round keeps its solution");
    assert_eq!(outcome.nonce, 3);
}

#[test]
fn deadline_after_resolution_is_a_noop() {
    let mut agg = RoundAggregator::start(9, 2);
    agg.submit(Some(rpc_solution(21)));
    agg.deadline_elapsed();
    let outcome = agg.into_outcome().expect("resolved round keeps its solution");
    assert_eq!(outcome.nonce, 21);
}

#[test]
fn exhaustion_resolves_exactly_at_last_refusal() {
    let mut agg = RoundAggregator::start(10, 3);
    agg.submit(None);
    agg.submit(None);
    assert!(!agg.is_resolved());
    agg.submit(None);
    assert!(agg.is_resolved());
    assert!(agg.into_outcome().is_none());
}

#[test]
fn routes_only_to_the_pending_round() {
    let mut coordinator = RoundCoordinator::new();
    let for_pending = ProposedProofOfSpaceResult { slot_number: 11, solution: None };
    let for_other = ProposedProofOfSpaceResult { slot_number: 12, solution: None };
    assert!(!coordinator.routes(&for_pending));
    coordinator.begin_round(&slot_info(11));
    assert!(coordinator.routes(&for_pending));
    assert!(!coordinator.routes(&for_other));
    coordinator.finish_round();
    // The round is over: a submission for it routes nowhere.
    assert!(!coordinator.routes(&for_pending));
}

#[test]
fn process_round_clears_the_pending_entry() {
    let mut coordinator = RoundCoordinator::new();
    let info = slot_info(13);
    let outcome = coordinator.process_round(&info, 2, vec![refusal(), submission(4)]);
    assert_eq!(outcome.expect("round must resolve").nonce, 4);
    let late = ProposedProofOfSpaceResult { slot_number: 13, solution: Some(rpc_solution(5)) };
    assert!(!coordinator.routes(&late));
}

#[test]
fn solution_from_rpc_preserves_every_field() {
    let sol = Solution::from_rpc(rpc_solution(88));
    assert_eq!(sol.public_key, [9u8; 32]);
    assert_eq!(sol.nonce, 88);
    assert_eq!(sol.encoding, vec![10, 11, 12]);
    assert_eq!(sol.signature, vec![13, 14]);
    assert_eq!(sol.tag, [8, 7, 6, 5, 4, 3, 2, 1]);
}
