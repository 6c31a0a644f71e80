use ki_core::metadata::{consumer_creation_error, metadata_from_fetch};
use ki_core::{Metadata, TopicListing};

fn listing(name: &str, partitions: usize) -> TopicListing {
    TopicListing { name: name.to_string(), partition_count: partitions }
}

#[test]
fn listing_becomes_topics_in_order() {
    let m = Metadata::from_listing(vec![listing("orders", 3), listing("payments", 1)]);
    let topics = m.topics();
    assert_eq!(topics.len(), 2);
    assert_eq!(topics[0].name(), "orders");
    assert_eq!(*topics[0].partitions(), 3);
    assert_eq!(*topics[0].messages_count(), 0);
    assert_eq!(*topics[0].last_message_timestamp(), None);
    assert_eq!(*topics[0].size(), 0);
    assert_eq!(topics[1].name(), "payments");
    assert_eq!(*topics[1].partitions(), 1);
}

#[test]
fn empty_listing_gives_empty_metadata() {
    let m = Metadata::from_listing(vec![]);
    assert!(m.topics().is_empty());
    assert!(m == Metadata::default());
}

#[test]
fn default_metadata_has_no_topic() {
    assert!(Metadata::default().topics().is_empty());
}

#[test]
fn fetch_success_gives_metadata() {
    let r = metadata_from_fetch(Ok(vec![listing("logs", 12)]));
    let m = r.unwrap();
    assert_eq!(m.topics().len(), 1);
    assert_eq!(m.topics()[0].name(), "logs");
    assert_eq!(*m.topics()[0].partitions(), 12);
}

#[test]
fn fetch_failure_gives_message() {
    let r = metadata_from_fetch(Err("Broker: timed out".to_string()));
    assert_eq!(r.err().unwrap(), "failed to fetch metadata: Broker: timed out");
}

#[test]
fn consumer_failure_gives_message() {
    assert_eq!(
        consumer_creation_error("bad config".to_string()),
        "failed to create consumer: bad config"
    );
}

#[test]
fn same_as_compares_every_topic() {
    let a = Metadata::from_listing(vec![listing("a", 1), listing("b", 2)]);
    let b = Metadata::from_listing(vec![listing("a", 1), listing("b", 2)]);
    let c = Metadata::from_listing(vec![listing("a", 1), listing("b", 3)]);
    let d = Metadata::from_listing(vec![listing("a", 1)]);
    let e = Metadata::from_listing(vec![listing("a", 1), listing("c", 2)]);
    assert!(a == b);
    assert!(a != c);
    assert!(a != d);
    assert!(a != e);
}

#[test]
fn duplicate_is_the_same() {
    let a = Metadata::from_listing(vec![listing("a", 4), listing("z", 9)]);
    let b = a.clone();
    assert!(a == b);
    assert!(a.topics()[1] == b.topics()[1]);
    assert!(a.topics()[0] != b.topics()[1]);
}
