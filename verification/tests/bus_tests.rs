use meeting_copilot::bus::{
    EventBus, PipelineEvent, PollOutcome, Subscription, SuggestionEvent, SuggestionKind,
};

fn event(tag: &str) -> PipelineEvent {
    PipelineEvent::Suggestion(SuggestionEvent {
        id: String::from("id"),
        content: String::from(tag),
        kind: SuggestionKind::Generated,
        confidence_pct: 90,
    })
}

fn content_of(outcome: PollOutcome) -> String {
    match outcome {
        PollOutcome::Event(PipelineEvent::Suggestion(ev)) => ev.content,
        other => panic!("expected a suggestion event, got {:?}", other),
    }
}

#[test]
fn events_are_read_in_publish_order() {
    let mut bus = EventBus::new(8);
    let mut sub = bus.subscribe();
    bus.publish(event("a"));
    bus.publish(event("b"));
    bus.publish(event("c"));
    assert_eq!(content_of(bus.poll(&mut sub)), "a");
    assert_eq!(content_of(bus.poll(&mut sub)), "b");
    assert_eq!(content_of(bus.poll(&mut sub)), "c");
    assert!(matches!(bus.poll(&mut sub), PollOutcome::Empty));
}

#[test]
fn each_subscriber_has_its_own_cursor() {
    let mut bus = EventBus::new(8);
    let mut early = bus.subscribe();
    bus.publish(event("a"));
    let mut late = bus.subscribe();
    bus.publish(event("b"));
    assert_eq!(content_of(bus.poll(&mut early)), "a");
    assert_eq!(content_of(bus.poll(&mut late)), "b");
    assert_eq!(content_of(bus.poll(&mut early)), "b");
    assert!(matches!(bus.poll(&mut late), PollOutcome::Empty));
}

#[test]
fn overflow_reports_the_exact_missed_count() {
    let mut bus = EventBus::new(2);
    let mut sub = bus.subscribe();
    for tag in ["a", "b", "c", "d", "e"] {
        bus.publish(event(tag));
    }
    match bus.poll(&mut sub) {
        PollOutcome::Lagged { missed } => assert_eq!(missed, 3),
        other => panic!("expected a missed count, got {:?}", other),
    }
    // Resynchronized to the oldest retained event.
    assert_eq!(content_of(bus.poll(&mut sub)), "d");
    assert_eq!(content_of(bus.poll(&mut sub)), "e");
    assert!(matches!(bus.poll(&mut sub), PollOutcome::Empty));
}

#[test]
fn resubscribing_skips_to_the_head() {
    let mut bus = EventBus::new(2);
    bus.publish(event("a"));
    bus.publish(event("b"));
    let mut sub: Subscription = bus.subscribe();
    assert!(matches!(bus.poll(&mut sub), PollOutcome::Empty));
    bus.publish(event("c"));
    assert_eq!(content_of(bus.poll(&mut sub)), "c");
}
