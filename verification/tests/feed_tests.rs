use timbas::engine::Engine;
use timbas::feed::{
    create_and_announce, new_feed, publish_created, subscribe_feed, try_next_event, FeedError,
    FEED_CAPACITY,
};
use timbas::models::{Timba, TimbaType};

fn strings(v: &[&str]) -> Vec<String> {
    v.iter().map(|s| s.to_string()).collect()
}

fn yn_poll() -> Timba {
    Timba { fields: strings(&["si", "no"]), ty: TimbaType::YN, deadline: None }
}

const NOW: &str = "2024-06-01T12:00:00+00:00";

#[test]
fn creation_publishes_one_event_per_poll() {
    let (tx, mut rx) = new_feed(FEED_CAPACITY);
    let mut engine = Engine::new();

    let id = create_and_announce(&mut engine, &tx, "mi timba", &yn_poll(), NOW).unwrap();
    assert_eq!(id, 1);

    let event = try_next_event(&mut rx).unwrap();
    assert_eq!(event.id, 1);
    assert_eq!(event.name, "mi timba");
    assert_eq!(event.time_of_creation, NOW);

    assert!(matches!(try_next_event(&mut rx), Err(FeedError::Empty)));
}

#[test]
fn refused_creation_publishes_nothing() {
    let (tx, mut rx) = new_feed(FEED_CAPACITY);
    let mut engine = Engine::new();
    let bad = Timba { fields: strings(&["solo"]), ty: TimbaType::YN, deadline: None };
    assert!(create_and_announce(&mut engine, &tx, "mala", &bad, NOW).is_err());
    assert!(matches!(try_next_event(&mut rx), Err(FeedError::Empty)));
}

#[test]
fn publish_without_subscribers_never_fails_creation() {
    let (tx, rx) = new_feed(FEED_CAPACITY);
    drop(rx);
    let mut engine = Engine::new();
    let id = create_and_announce(&mut engine, &tx, "sin oyentes", &yn_poll(), NOW).unwrap();
    assert_eq!(id, 1);
    assert_eq!(engine.polls.len(), 1);
}

#[test]
fn subscriber_sees_only_later_events() {
    let (tx, mut rx0) = new_feed(FEED_CAPACITY);
    let _ = publish_created(&tx, 1, "antes", NOW);
    let mut rx = subscribe_feed(&tx);
    let _ = publish_created(&tx, 2, "despues", NOW);

    assert_eq!(try_next_event(&mut rx0).unwrap().id, 1);
    let seen = try_next_event(&mut rx).unwrap();
    assert_eq!(seen.id, 2);
    assert_eq!(seen.name, "despues");
    assert!(matches!(try_next_event(&mut rx), Err(FeedError::Empty)));
}

#[test]
fn lagged_subscriber_learns_the_gap() {
    let (tx, mut rx) = new_feed(1);
    let _ = publish_created(&tx, 1, "uno", NOW);
    let _ = publish_created(&tx, 2, "dos", NOW);
    let _ = publish_created(&tx, 3, "tres", NOW);

    assert!(matches!(try_next_event(&mut rx), Err(FeedError::Lagged(2))));
    assert_eq!(try_next_event(&mut rx).unwrap().id, 3);
    assert!(matches!(try_next_event(&mut rx), Err(FeedError::Empty)));
}

#[test]
fn feed_closes_when_all_publishers_are_gone() {
    let (tx, mut rx) = new_feed(FEED_CAPACITY);
    let _ = publish_created(&tx, 1, "ultima", NOW);
    drop(tx);
    assert_eq!(try_next_event(&mut rx).unwrap().id, 1);
    assert!(matches!(try_next_event(&mut rx), Err(FeedError::Closed)));
}
