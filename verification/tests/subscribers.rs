use poc_rpc::registry::{delivered_count, SubscriberRegistry};
use poc_rpc::round::RoundAggregator;

#[test]
fn subscribe_hands_out_fresh_handles_in_order() {
    let mut registry = SubscriberRegistry::new();
    assert_eq!(registry.live_count(), 0);
    assert!(registry.can_subscribe());
    let first = registry.subscribe();
    let second = registry.subscribe();
    let third = registry.subscribe();
    assert_ne!(first, second);
    assert_ne!(second, third);
    assert_ne!(first, third);
    assert_eq!(registry.live_count(), 3);
    assert_eq!(registry.snapshot(), vec![first, second, third]);
}

#[test]
fn unsubscribe_removes_only_the_named_handle() {
    let mut registry = SubscriberRegistry::new();
    let first = registry.subscribe();
    let second = registry.subscribe();
    let third = registry.subscribe();
    registry.unsubscribe(second);
    assert_eq!(registry.live_count(), 2);
    assert_eq!(registry.snapshot(), vec![first, third]);
}

#[test]
fn unsubscribe_is_idempotent() {
    let mut registry = SubscriberRegistry::new();
    let first = registry.subscribe();
    let second = registry.subscribe();
    registry.unsubscribe(first);
    registry.unsubscribe(first);
    // An unknown handle changes nothing either.
    registry.unsubscribe(12345);
    assert_eq!(registry.live_count(), 1);
    assert_eq!(registry.snapshot(), vec![second]);
}

#[test]
fn delivered_count_counts_successful_deliveries() {
    assert_eq!(delivered_count(&Vec::new()), 0);
    assert_eq!(delivered_count(&vec![true, true, true]), 3);
    // A failed delivery is a skip for this broadcast: it lowers the
    // notified count by one.
    assert_eq!(delivered_count(&vec![true, false, true]), 2);
    assert_eq!(delivered_count(&vec![false, false]), 0);
}

#[test]
fn unsubscribe_mid_round_keeps_the_captured_count() {
    let mut registry = SubscriberRegistry::new();
    let first = registry.subscribe();
    let _second = registry.subscribe();

    // Broadcast time: the snapshot fixes the round's notified count.
    let notified = registry.snapshot().len() as u64;
    assert_eq!(notified, 2);

    // One subscriber unsubscribes while the round is in flight.
    registry.unsubscribe(first);

    // The in-flight round still waits for both refusals: one refusal
    // alone does not exhaust it, the second does.
    let mut agg = RoundAggregator::start(20, notified);
    agg.submit(None);
    assert!(!agg.is_resolved());
    agg.submit(None);
    assert!(agg.is_resolved());
    assert!(agg.into_outcome().is_none());

    // Only the next round sees the smaller live set.
    assert_eq!(registry.snapshot().len(), 1);
}
