use ki_core::rt::Command;
use ki_core::view::{
    timestamp_label, topic_row, topics_table, topics_table_header, ClusterForm, Screen,
};
use ki_core::{Metadata, TopicListing};

#[test]
fn timestamp_missing_is_na() {
    assert_eq!(timestamp_label(None), "N/A");
    assert_eq!(timestamp_label(Some(1725029869)), "1725029869");
    assert_eq!(timestamp_label(Some(-3)), "-3");
}

#[test]
fn row_of_listed_topic() {
    let m = Metadata::from_listing(vec![TopicListing { name: "events".to_string(), partition_count: 12 }]);
    let row = topic_row(&m.topics()[0]);
    assert_eq!(row, vec!["events", "12", "0", "N/A", "0"]);
}

#[test]
fn no_table_before_metadata() {
    assert!(topics_table(&None).is_none());
}

#[test]
fn table_has_one_row_per_topic() {
    let m = Metadata::from_listing(vec![
        TopicListing { name: "a".to_string(), partition_count: 1 },
        TopicListing { name: "b".to_string(), partition_count: 20 },
    ]);
    let rows = topics_table(&Some(m)).unwrap();
    assert_eq!(rows.len(), 2);
    assert_eq!(rows[0], vec!["a", "1", "0", "N/A", "0"]);
    assert_eq!(rows[1], vec!["b", "20", "0", "N/A", "0"]);
}

#[test]
fn form_starts_at_default_address() {
    let f = ClusterForm::new();
    assert_eq!(f.cluster_address, "localhost:29092");
    assert!(!f.connected);
    assert!(!f.connecting);
    assert!(matches!(f.screen(), Screen::ConnectToCluster));
}

#[test]
fn connect_button_greets() {
    let f = ClusterForm::new();
    match f.connect_clicked() {
        Command::Greet(a) => assert_eq!(a, "localhost:29092"),
        _ => panic!("expected a greeting"),
    }
    assert!(!f.connected);
}

#[test]
fn spawn_button_connects() {
    let mut f = ClusterForm::new();
    f.cluster_address = "kafka:9092".to_string();
    match f.spawn_clicked() {
        Command::SpawnMetadataFetcher(a) => assert_eq!(a, "kafka:9092"),
        _ => panic!("expected a fetcher"),
    }
    assert!(f.connected);
    assert!(matches!(f.screen(), Screen::TopicsTable));
}

#[test]
fn table_header_titles() {
    assert_eq!(
        topics_table_header(),
        vec!["Topic", "Partitions", "Messages count", "Last message timestamp", "size"]
    );
}

#[test]
fn spinner_while_connecting() {
    let mut f = ClusterForm::new();
    assert!(!f.shows_spinner());
    f.connecting = true;
    assert!(f.shows_spinner());
}
