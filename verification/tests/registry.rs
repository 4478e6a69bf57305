use voice_streaming::lifecycle::cleanup_connection;
use voice_streaming::state::{stream_id_for, AppState, ConnectionRole};

fn sorted(mut v: Vec<String>) -> Vec<String> {
    v.sort();
    v
}

#[test]
fn stream_id_is_prefix_and_connection_id() {
    assert_eq!(stream_id_for("abc"), "stream_abc");
    assert_eq!(stream_id_for(""), "stream_");
    assert_eq!(stream_id_for("stream_x"), "stream_stream_x");
}

#[test]
fn distinct_connections_give_distinct_stream_ids() {
    assert_ne!(stream_id_for("a"), stream_id_for("b"));
    assert_eq!(stream_id_for("a"), stream_id_for("a"));
}

#[test]
fn new_registry_is_empty() {
    let state = AppState::new();
    assert_eq!(state.stream_count(), 0);
    assert_eq!(state.connection_count(), 0);
    assert!(state.stream_ids().is_empty());
    assert!(state.find_connection("a").is_none());
    assert!(state.find_stream("stream_a").is_none());
}

#[test]
fn register_then_find() {
    let mut state = AppState::new();
    assert!(state.register("a", 7, ConnectionRole::Sender, None));
    let found = state.find_connection("a").unwrap();
    assert_eq!(found.connection_id, "a");
    assert_eq!(found.pc, 7);
    assert_eq!(found.role, ConnectionRole::Sender);
    assert_eq!(found.stream_id, None);
    assert_eq!(state.connection_count(), 1);
    assert!(state.find_connection("b").is_none());
}

#[test]
fn register_replaces_earlier_entry() {
    let mut state = AppState::new();
    assert!(state.register("a", 1, ConnectionRole::Receiver, Some("stream_x".to_string())));
    assert!(state.register("a", 2, ConnectionRole::Sender, None));
    let found = state.find_connection("a").unwrap();
    assert_eq!(found.pc, 2);
    assert_eq!(found.role, ConnectionRole::Sender);
    assert_eq!(state.connection_count(), 1);
}

#[test]
fn publish_needs_a_registered_sender() {
    let mut state = AppState::new();
    assert_eq!(state.publish_stream("a", 3), None);
    state.register("r", 1, ConnectionRole::Receiver, None);
    assert_eq!(state.publish_stream("r", 3), None);
    assert_eq!(state.stream_count(), 0);
    state.register("a", 2, ConnectionRole::Sender, None);
    assert_eq!(state.publish_stream("a", 3), Some("stream_a".to_string()));
    let stream = state.find_stream("stream_a").unwrap();
    assert_eq!(stream.stream_id, "stream_a");
    assert_eq!(stream.source_track, 3);
    assert!(stream.receivers.is_empty());
}

#[test]
fn at_most_one_stream_per_sender() {
    let mut state = AppState::new();
    state.register("a", 2, ConnectionRole::Sender, None);
    assert!(state.publish_stream("a", 3).is_some());
    state.subscribe("stream_a", 11);
    assert_eq!(state.publish_stream("a", 4), None);
    let stream = state.find_stream("stream_a").unwrap();
    assert_eq!(stream.source_track, 3);
    assert_eq!(stream.receivers, vec![11]);
    assert_eq!(state.stream_count(), 1);
}

#[test]
fn many_senders_many_streams() {
    let mut state = AppState::new();
    for id in ["a", "b", "c"] {
        state.register(id, 1, ConnectionRole::Sender, None);
        assert!(state.publish_stream(id, 10).is_some());
    }
    assert_eq!(state.stream_count(), 3);
    assert_eq!(
        sorted(state.stream_ids()),
        vec!["stream_a".to_string(), "stream_b".to_string(), "stream_c".to_string()]
    );
}

#[test]
fn subscribe_appends_in_order() {
    let mut state = AppState::new();
    state.register("a", 2, ConnectionRole::Sender, None);
    state.publish_stream("a", 3);
    assert!(state.subscribe("stream_a", 5));
    assert!(state.subscribe("stream_a", 4));
    assert!(state.subscribe("stream_a", 5));
    assert_eq!(state.receivers_of("stream_a"), vec![5, 4, 5]);
    assert!(!state.subscribe("stream_b", 9));
    assert_eq!(state.receivers_of("stream_b"), Vec::<u64>::new());
    assert_eq!(state.receivers_of("stream_a"), vec![5, 4, 5]);
}

#[test]
fn receiver_does_not_replace_a_sender_with_a_live_stream() {
    let mut state = AppState::new();
    state.register("a", 2, ConnectionRole::Sender, None);
    state.publish_stream("a", 3);
    assert!(!state.register("a", 9, ConnectionRole::Receiver, Some("stream_a".to_string())));
    let found = state.find_connection("a").unwrap();
    assert_eq!(found.pc, 2);
    assert_eq!(found.role, ConnectionRole::Sender);
}

#[test]
fn resolve_stream_explicit_and_arbitrary() {
    let mut state = AppState::new();
    assert_eq!(state.resolve_stream(None), None);
    assert_eq!(state.resolve_stream(Some("stream_a".to_string())), None);
    state.register("a", 2, ConnectionRole::Sender, None);
    state.publish_stream("a", 3);
    assert_eq!(state.resolve_stream(None), Some("stream_a".to_string()));
    assert_eq!(state.resolve_stream(Some("stream_a".to_string())), Some("stream_a".to_string()));
    assert_eq!(state.resolve_stream(Some("stream_b".to_string())), None);
    state.register("b", 4, ConnectionRole::Sender, None);
    state.publish_stream("b", 5);
    let any = state.resolve_stream(None).unwrap();
    assert!(any == "stream_a" || any == "stream_b");
}

#[test]
fn cleanup_of_sender_removes_connection_and_stream() {
    let mut state = AppState::new();
    state.register("a", 2, ConnectionRole::Sender, None);
    state.publish_stream("a", 3);
    state.register("b", 4, ConnectionRole::Sender, None);
    state.publish_stream("b", 5);
    let teardown = cleanup_connection(&mut state, "a");
    assert_eq!(teardown.close_session, Some(2));
    assert_eq!(teardown.cancel_stream, Some("stream_a".to_string()));
    assert!(state.find_connection("a").is_none());
    assert!(state.find_stream("stream_a").is_none());
    assert_eq!(state.stream_ids(), vec!["stream_b".to_string()]);
    assert_eq!(state.connection_count(), 1);
}

#[test]
fn cleanup_of_sender_without_stream_cancels_nothing() {
    let mut state = AppState::new();
    state.register("a", 2, ConnectionRole::Sender, None);
    let teardown = cleanup_connection(&mut state, "a");
    assert_eq!(teardown.close_session, Some(2));
    assert_eq!(teardown.cancel_stream, None);
    assert_eq!(state.connection_count(), 0);
}

#[test]
fn cleanup_of_receiver_leaves_the_stream() {
    let mut state = AppState::new();
    state.register("a", 2, ConnectionRole::Sender, None);
    state.publish_stream("a", 3);
    state.subscribe("stream_a", 8);
    state.register("r", 6, ConnectionRole::Receiver, Some("stream_a".to_string()));
    let teardown = cleanup_connection(&mut state, "r");
    assert_eq!(teardown.close_session, Some(6));
    assert_eq!(teardown.cancel_stream, None);
    assert_eq!(state.receivers_of("stream_a"), vec![8]);
    assert_eq!(state.stream_count(), 1);
}

#[test]
fn cleanup_twice_is_a_no_op() {
    let mut state = AppState::new();
    state.register("a", 2, ConnectionRole::Sender, None);
    state.publish_stream("a", 3);
    let first = cleanup_connection(&mut state, "a");
    assert_eq!(first.cancel_stream, Some("stream_a".to_string()));
    let second = cleanup_connection(&mut state, "a");
    assert_eq!(second.close_session, None);
    assert_eq!(second.cancel_stream, None);
    assert_eq!(state.connection_count(), 0);
    assert_eq!(state.stream_count(), 0);
}

#[test]
fn cleanup_of_unknown_connection_changes_nothing() {
    let mut state = AppState::new();
    state.register("a", 2, ConnectionRole::Sender, None);
    state.publish_stream("a", 3);
    let teardown = cleanup_connection(&mut state, "zzz");
    assert_eq!(teardown.close_session, None);
    assert_eq!(teardown.cancel_stream, None);
    assert_eq!(state.connection_count(), 1);
    assert_eq!(state.stream_ids(), vec!["stream_a".to_string()]);
}
