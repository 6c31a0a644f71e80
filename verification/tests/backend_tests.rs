use ki_core::backend::{
    fetched_update, first_fetch_outcome, AppState, FirstFetch, InternalState, LoopMessage, LoopReply,
    ReconnectPlan,
};
use ki_core::{ConsumerParams, Metadata, TopicListing};

fn one_topic(name: &str) -> Metadata {
    Metadata::from_listing(vec![TopicListing { name: name.to_string(), partition_count: 1 }])
}

#[test]
fn fresh_state_is_disconnected_and_empty() {
    let s: InternalState<u32> = InternalState::new();
    assert!(!s.is_connected());
    assert!(s.check_spawn().is_ok());
    assert!(s.last_metadata().topics().is_empty());
}

#[test]
fn second_spawn_is_refused() {
    let mut s: InternalState<u32> = InternalState::new();
    assert!(s.check_spawn().is_ok());
    s.register_fetcher(7);
    assert!(s.is_connected());
    assert_eq!(s.check_spawn(), Err("Metadata fetcher already running".to_string()));
}

#[test]
fn removal_hands_out_the_registered_fetcher() {
    let mut s: InternalState<u32> = InternalState::new();
    s.register_fetcher(7);
    assert_eq!(s.take_fetcher(), 7);
    assert!(!s.is_connected());
    assert!(s.check_spawn().is_ok());
}

#[test]
fn last_metadata_reads_back() {
    let mut s: InternalState<u32> = InternalState::new();
    s.set_last_metadata(one_topic("orders"));
    assert!(s.last_metadata() == one_topic("orders"));
    s.register_fetcher(1);
    assert!(s.last_metadata() == one_topic("orders"));
    s.set_last_metadata(one_topic("other"));
    assert!(s.is_connected());
    assert_eq!(s.last_metadata().topics()[0].name(), "other");
}

#[test]
fn reconnect_without_fetcher_does_nothing() {
    let mut a = AppState::new(5u8);
    assert!(matches!(a.reconnect_plan(false), ReconnectPlan::NotConnected));
    a.record_connection(ConsumerParams { address: "h:1".to_string() });
    assert!(matches!(a.reconnect_plan(false), ReconnectPlan::NotConnected));
    assert_eq!(*a.message_sender(), 5);
}

#[test]
fn reconnect_uses_last_connection() {
    let mut a = AppState::new(());
    assert!(!a.has_recorded_connection());
    a.record_connection(ConsumerParams { address: "h:1".to_string() });
    a.record_connection(ConsumerParams { address: "h:2".to_string() });
    assert!(a.has_recorded_connection());
    match a.reconnect_plan(true) {
        ReconnectPlan::Respawn(p) => assert_eq!(p.address, "h:2"),
        _ => panic!("expected a respawn"),
    }
}

#[test]
fn unchanged_fetch_is_not_reported() {
    assert!(fetched_update(&one_topic("a"), one_topic("a")).is_none());
    let r = fetched_update(&one_topic("a"), one_topic("b")).unwrap();
    assert_eq!(r.topics()[0].name(), "b");
    assert!(fetched_update(&Metadata::default(), one_topic("a")).is_some());
}

#[test]
fn each_change_reported_once() {
    let mut s: InternalState<u32> = InternalState::new();
    let fetched = one_topic("x");
    let first = fetched_update(&s.last_metadata(), fetched.clone()).unwrap();
    s.set_last_metadata(first);
    assert!(fetched_update(&s.last_metadata(), fetched).is_none());
}

type Msg = LoopMessage<&'static str, u8, u8>;
type Reply = LoopReply<&'static str, u8, u8, u32>;

fn handle(s: &mut InternalState<u32>, msg: Msg, next_handle: u32) -> Reply {
    s.handle_message(msg, move |_payload| next_handle)
}

#[test]
fn loop_starts_one_fetcher_at_a_time() {
    let mut s: InternalState<u32> = InternalState::new();
    assert!(matches!(handle(&mut s, LoopMessage::SpawnMetadataFetcher("a"), 1), LoopReply::Started));
    match handle(&mut s, LoopMessage::SpawnMetadataFetcher("b"), 2) {
        LoopReply::Refused(p, e) => {
            assert_eq!(p, "b");
            assert_eq!(e, "Metadata fetcher already running");
        }
        _ => panic!("expected a refusal"),
    }
    assert!(matches!(handle(&mut s, LoopMessage::RemoveMetadataFetcher, 0), LoopReply::Removed(1)));
    assert!(matches!(handle(&mut s, LoopMessage::SpawnMetadataFetcher("c"), 3), LoopReply::Started));
    assert!(matches!(handle(&mut s, LoopMessage::RemoveMetadataFetcher, 0), LoopReply::Removed(3)));
}

#[test]
fn loop_answers_connection_state() {
    let mut s: InternalState<u32> = InternalState::new();
    assert!(matches!(handle(&mut s, LoopMessage::GetIsConnected(9), 0), LoopReply::IsConnected(9, false)));
    handle(&mut s, LoopMessage::SpawnMetadataFetcher("a"), 1);
    handle(&mut s, LoopMessage::SetLastMetadata(one_topic("t")), 0);
    assert!(matches!(handle(&mut s, LoopMessage::GetIsConnected(9), 0), LoopReply::IsConnected(9, true)));
    handle(&mut s, LoopMessage::RemoveMetadataFetcher, 0);
    assert!(matches!(handle(&mut s, LoopMessage::GetIsConnected(9), 0), LoopReply::IsConnected(9, false)));
}

#[test]
fn loop_reads_back_last_report_across_messages() {
    let mut s: InternalState<u32> = InternalState::new();
    match handle(&mut s, LoopMessage::GetLastMetadata(4), 0) {
        LoopReply::LastMetadata(4, m) => assert!(m == Metadata::default()),
        _ => panic!("expected metadata"),
    }
    assert!(matches!(handle(&mut s, LoopMessage::SetLastMetadata(one_topic("x")), 0), LoopReply::Recorded));
    handle(&mut s, LoopMessage::SpawnMetadataFetcher("a"), 1);
    handle(&mut s, LoopMessage::GetIsConnected(1), 0);
    handle(&mut s, LoopMessage::RemoveMetadataFetcher, 0);
    match handle(&mut s, LoopMessage::GetLastMetadata(5), 0) {
        LoopReply::LastMetadata(5, m) => assert!(m == one_topic("x")),
        _ => panic!("expected metadata"),
    }
}

#[test]
fn first_fetch_decides_whether_to_keep_fetching() {
    assert!(matches!(first_fetch_outcome(Ok(one_topic("a"))), FirstFetch::Connected));
    match first_fetch_outcome(Err("failed to fetch metadata: down".to_string())) {
        FirstFetch::Failed(e) => assert_eq!(e, "failed to fetch metadata: down"),
        _ => panic!("expected a failure"),
    }
}
