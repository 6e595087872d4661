use backend::protocol::ServerMessage;
use backend::state::{new_channel, publish, AppState, Channel, CHANNEL_CAPACITY};
use tokio::sync::broadcast::error::TryRecvError;

fn note(text: &str) -> ServerMessage {
    ServerMessage::Error { message: text.to_string() }
}

#[test]
fn publishing_without_a_channel_does_nothing() {
    let state = AppState::new();
    state.broadcast(1, note("nobody listens"));
    assert!(state.channels.is_empty());
}

#[test]
fn channel_is_made_once_for_each_game() {
    let state = AppState::new();
    let first = state.get_or_create_channel(1);
    let again = state.get_or_create_channel(1);
    let other = state.get_or_create_channel(2);
    assert!(first.same_channel(&again));
    assert!(!first.same_channel(&other));
    assert_eq!(state.channels.len(), 2);
}

#[test]
fn clones_share_their_channels() {
    let state = AppState::new();
    let clone = state.clone();
    let mut rx = state.get_or_create_channel(1).subscribe();
    clone.broadcast(1, note("hello"));
    assert_eq!(rx.try_recv(), Ok(note("hello")));
    assert!(state.get_or_create_channel(1).same_channel(&clone.get_or_create_channel(1)));
}

#[test]
fn every_viewer_of_the_game_receives_the_event() {
    let state = AppState::new();
    let mut a = state.get_or_create_channel(1).subscribe();
    let mut b = state.get_or_create_channel(1).subscribe();
    let mut elsewhere = state.get_or_create_channel(2).subscribe();
    state.broadcast(1, note("one"));
    assert_eq!(a.try_recv(), Ok(note("one")));
    assert_eq!(b.try_recv(), Ok(note("one")));
    assert_eq!(elsewhere.try_recv(), Err(TryRecvError::Empty));
}

#[test]
fn publishing_without_viewers_does_nothing() {
    let state = AppState::new();
    let tx = state.get_or_create_channel(1);
    state.broadcast(1, note("early"));
    let mut late = tx.subscribe();
    assert_eq!(late.try_recv(), Err(TryRecvError::Empty));
}

#[test]
fn events_are_published_in_their_order() {
    let state = AppState::new();
    let mut rx = state.get_or_create_channel(1).subscribe();
    state.broadcast_all(1, vec![note("first"), note("second"), note("third")]);
    assert_eq!(rx.try_recv(), Ok(note("first")));
    assert_eq!(rx.try_recv(), Ok(note("second")));
    assert_eq!(rx.try_recv(), Ok(note("third")));
    assert_eq!(rx.try_recv(), Err(TryRecvError::Empty));
}

#[test]
fn slow_viewer_misses_the_oldest_events() {
    assert_eq!(CHANNEL_CAPACITY, 64);
    let state = AppState::new();
    let mut rx = state.get_or_create_channel(1).subscribe();
    for i in 0..CHANNEL_CAPACITY {
        state.broadcast(1, note(&format!("{}", i)));
    }
    state.broadcast(1, note("one more"));
    assert_eq!(rx.try_recv(), Err(TryRecvError::Lagged(1)));
    assert_eq!(rx.try_recv(), Ok(note("1")));
}

#[test]
fn full_channel_loses_nothing() {
    let tx = new_channel();
    let mut rx = tx.subscribe();
    for i in 0..CHANNEL_CAPACITY {
        assert_eq!(tx.send(note(&format!("{}", i))).ok(), Some(1));
    }
    assert_eq!(rx.try_recv(), Ok(note("0")));
    let mut slow = tx.subscribe();
    for i in 0..CHANNEL_CAPACITY + 1 {
        assert_eq!(tx.send(note(&format!("{}", i))).ok(), Some(2));
    }
    assert_eq!(slow.try_recv(), Err(TryRecvError::Lagged(1)));
}

#[test]
fn publishing_counts_the_viewers() {
    assert_eq!(publish(None, note("nobody")), None);
    let tx = new_channel();
    assert_eq!(publish(Some(tx.clone()), note("no viewer yet")), None);
    let mut a = tx.subscribe();
    assert_eq!(publish(Some(tx.clone()), note("one")), Some(1));
    let _b = tx.subscribe();
    assert_eq!(publish(Some(tx.clone()), note("two")), Some(2));
    assert_eq!(a.try_recv(), Ok(note("one")));
    assert_eq!(a.try_recv(), Ok(note("two")));
}

#[test]
fn clone_of_a_channel_is_the_same_channel() {
    let channel = Channel::new();
    let copy = channel.clone();
    let tx = channel.into_sender();
    assert!(copy.into_sender().same_channel(&tx));
    assert!(!Channel::new().into_sender().same_channel(&tx));
}

#[test]
fn channel_of_a_game_keeps_as_many_events_as_its_capacity() {
    let state = AppState::new();
    let tx = state.get_or_create_channel(7);
    let mut rx = tx.subscribe();
    for i in 0..CHANNEL_CAPACITY {
        assert_eq!(publish(Some(tx.clone()), note(&format!("{}", i))), Some(1));
    }
    assert_eq!(rx.try_recv(), Ok(note("0")));
    let mut slow = state.get_or_create_channel(7).subscribe();
    for i in 0..CHANNEL_CAPACITY + 1 {
        state.broadcast(7, note(&format!("{}", i)));
    }
    assert_eq!(slow.try_recv(), Err(TryRecvError::Lagged(1)));
}

#[test]
fn new_channel_of_a_game_keeps_as_many_events_as_its_capacity() {
    let fresh = Channel::new().into_sender();
    let mut lagging = fresh.subscribe();
    for i in 0..CHANNEL_CAPACITY + 2 {
        assert_eq!(fresh.send(note(&format!("{}", i))).ok(), Some(1));
    }
    assert_eq!(lagging.try_recv(), Err(TryRecvError::Lagged(2)));
    assert_eq!(lagging.try_recv(), Ok(note("2")));
}

#[test]
fn channel_asked_for_again_has_its_subscribers() {
    let state = AppState::new();
    let mut first = state.get_or_create_channel(1).subscribe();
    let again = state.clone().get_or_create_channel(1);
    assert_eq!(again.receiver_count(), 1);
    assert_eq!(publish(Some(again), note("still here")), Some(1));
    assert_eq!(first.try_recv(), Ok(note("still here")));
    state.broadcast(1, note("and here"));
    assert_eq!(first.try_recv(), Ok(note("and here")));
    assert_eq!(state.channels.len(), 1);
}
