use catalog_crawler::feed::{FeedEvent, FeedOutput, LiveFeed};

#[test]
fn notifications_are_forwarded_in_order() {
    let mut feed = LiveFeed::subscribe("M2mx".to_string());
    assert_eq!(feed.subject_key(), "M2mx");
    assert!(matches!(feed.accept(FeedEvent::Connected), FeedOutput::Ready));
    assert!(matches!(feed.accept(FeedEvent::Notification("one".to_string())), FeedOutput::Forward(ref n) if n == "one"));
    assert!(matches!(feed.accept(FeedEvent::Notification("two".to_string())), FeedOutput::Forward(ref n) if n == "two"));
    assert!(!feed.is_ended());
}

#[test]
fn close_while_next_pending_ends_it() {
    let mut feed = LiveFeed::subscribe("subject".to_string());
    feed.accept(FeedEvent::Connected);
    assert!(matches!(feed.close(), FeedOutput::Closed));
    assert!(feed.is_ended());
    assert!(matches!(feed.accept(FeedEvent::Notification("late".to_string())), FeedOutput::Closed));
    assert!(matches!(feed.accept(FeedEvent::Connected), FeedOutput::Closed));
}

#[test]
fn transport_fault_ends_the_subscription() {
    let mut feed = LiveFeed::subscribe("subject".to_string());
    assert!(matches!(feed.accept(FeedEvent::TransportFault("reset".to_string())), FeedOutput::Faulted(ref m) if m == "reset"));
    assert!(feed.is_ended());
    assert!(matches!(feed.accept(FeedEvent::Notification("x".to_string())), FeedOutput::Faulted(ref m) if m == "reset"));
    assert!(matches!(feed.close(), FeedOutput::Faulted(_)));
}
