use voice_streaming::lifecycle::cleanup_connection;
use voice_streaming::state::{AppState, ConnectionRole};
use voice_streaming::relay::{start_relay_loop, RelayAction, RelayEvent};

fn live_stream(receivers: &[u64]) -> AppState {
    let mut state = AppState::new();
    state.register("a", 1, ConnectionRole::Sender, None);
    state.publish_stream("a", 2);
    for r in receivers {
        state.subscribe("stream_a", *r);
    }
    state
}

fn targets(action: RelayAction) -> Option<Vec<u64>> {
    match action {
        RelayAction::Deliver { targets } => Some(targets),
        RelayAction::Stop => None,
    }
}

#[test]
fn relay_starts_running() {
    let relay = start_relay_loop("stream_a".to_string(), 2);
    assert_eq!(relay.stream_id, "stream_a");
    assert_eq!(relay.source_track, 2);
    assert!(relay.running);
}

#[test]
fn packet_goes_to_every_receiver() {
    let state = live_stream(&[10, 11, 12]);
    let mut relay = start_relay_loop("stream_a".to_string(), 2);
    assert_eq!(targets(relay.on_event(&state, RelayEvent::Packet)), Some(vec![10, 11, 12]));
    assert!(relay.running);
    assert_eq!(targets(relay.on_event(&state, RelayEvent::Packet)), Some(vec![10, 11, 12]));
}

#[test]
fn packet_without_receivers_goes_nowhere_and_relay_goes_on() {
    let state = live_stream(&[]);
    let mut relay = start_relay_loop("stream_a".to_string(), 2);
    assert_eq!(targets(relay.on_event(&state, RelayEvent::Packet)), Some(vec![]));
    assert!(relay.running);
}

#[test]
fn late_subscriber_gets_later_packets() {
    let mut state = live_stream(&[10]);
    let mut relay = start_relay_loop("stream_a".to_string(), 2);
    assert_eq!(targets(relay.on_event(&state, RelayEvent::Packet)), Some(vec![10]));
    state.subscribe("stream_a", 20);
    assert_eq!(targets(relay.on_event(&state, RelayEvent::Packet)), Some(vec![10, 20]));
    assert_eq!(targets(relay.on_event(&state, RelayEvent::Packet)), Some(vec![10, 20]));
}

#[test]
fn shutdown_stops_the_relay() {
    let state = live_stream(&[10]);
    let mut relay = start_relay_loop("stream_a".to_string(), 2);
    assert_eq!(targets(relay.on_event(&state, RelayEvent::Shutdown)), None);
    assert!(!relay.running);
    assert_eq!(targets(relay.on_event(&state, RelayEvent::Packet)), None);
    assert!(!relay.running);
}

#[test]
fn failed_read_stops_the_relay() {
    let state = live_stream(&[10]);
    let mut relay = start_relay_loop("stream_a".to_string(), 2);
    assert_eq!(targets(relay.on_event(&state, RelayEvent::ReadFailed)), None);
    assert!(!relay.running);
    assert_eq!(targets(relay.on_event(&state, RelayEvent::Packet)), None);
}

#[test]
fn relay_does_not_touch_the_registry() {
    let state = live_stream(&[10, 11]);
    let mut relay = start_relay_loop("stream_a".to_string(), 2);
    relay.on_event(&state, RelayEvent::Packet);
    relay.on_event(&state, RelayEvent::ReadFailed);
    assert_eq!(state.receivers_of("stream_a"), vec![10, 11]);
    assert_eq!(state.stream_count(), 1);
    assert_eq!(state.connection_count(), 1);
}

#[test]
fn packet_after_stream_is_gone_has_no_targets() {
    let mut state = live_stream(&[10]);
    let mut relay = start_relay_loop("stream_a".to_string(), 2);
    cleanup_connection(&mut state, "a");
    assert_eq!(targets(relay.on_event(&state, RelayEvent::Packet)), Some(vec![]));
}
