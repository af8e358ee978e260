use chat_core::event::AppEvent;
use chat_core::model::{Chat, ChatType, Message, User};
use chat_core::notify::{ChangePayload, Notification, Snapshot};
use chat_core::registry::{
    delivery_of, Delivery, Subscription, SubscriptionRegistry, CHANNEL_CAPACITY, MAX_SUBSCRIBERS,
};
use chat_core::router::route;
use chat_core::session::{
    heartbeat_text, SessionAction, SessionInput, SessionState, StreamSession, HEARTBEAT_SECS,
};
use std::sync::Arc;
use tokio::sync::broadcast::error::TryRecvError;

fn chat(id: i64, name: Option<&str>, members: &[i64]) -> Chat {
    Chat {
        id,
        ws_id: 1,
        name: name.map(|s| s.to_string()),
        chat_type: ChatType::Group,
        members: members.to_vec(),
        created_at: 0,
    }
}

fn message(id: i64, chat_id: i64, sender_id: i64, content: &str) -> Message {
    Message {
        id,
        chat_id,
        sender_id,
        content: content.to_string(),
        files: vec![],
        created_at: 0,
    }
}

fn event(id: i64) -> Arc<AppEvent> {
    Arc::new(AppEvent::NewMessage(message(id, 7, 5, "hi")))
}

fn message_id(event: &AppEvent) -> i64 {
    match event {
        AppEvent::NewMessage(m) => m.id,
        other => panic!("unexpected {:?}", other),
    }
}

fn next(sub: &mut Subscription) -> Result<i64, TryRecvError> {
    sub.receiver().try_recv().map(|e| message_id(&e))
}

fn user(id: i64) -> User {
    User::new(id, "test", "test@test.com")
}

fn streaming(registry: &mut SubscriptionRegistry, id: i64) -> StreamSession {
    let mut session = StreamSession::new(&user(id));
    assert_eq!(session.state(), SessionState::Connecting);
    session.connect(registry);
    assert_eq!(session.state(), SessionState::Streaming);
    session
}

fn poll(session: &mut StreamSession) -> SessionInput {
    match session.receiver().expect("the session streams").try_recv() {
        Ok(event) => SessionInput::Event(event),
        Err(TryRecvError::Empty) => SessionInput::Tick,
        Err(TryRecvError::Lagged(n)) => SessionInput::Lagged(n),
        Err(TryRecvError::Closed) => SessionInput::ChannelClosed,
    }
}

#[test]
fn registry_starts_empty() {
    let registry = SubscriptionRegistry::new();
    assert!(!registry.contains(1));
    assert_eq!(registry.subscribers(1), None);
    assert!(registry.has_room(1));
    assert_eq!(CHANNEL_CAPACITY, 256);
}

#[test]
fn many_subscriptions_share_one_channel() {
    let mut registry = SubscriptionRegistry::new();
    let mut subs: Vec<Subscription> = (0..5).map(|_| registry.get_or_create(7)).collect();
    assert_eq!(registry.subscribers(7), Some(5));
    assert!(!registry.contains(8));
    for sub in &subs {
        assert_eq!(sub.user_id(), 7);
    }
    assert_eq!(registry.publish(7, event(1)), Delivery::Delivered(5));
    assert_eq!(registry.subscribers(7), Some(5));
    for sub in subs.iter_mut() {
        assert_eq!(next(sub), Ok(1));
        assert_eq!(next(sub), Err(TryRecvError::Empty));
    }
}

#[test]
fn events_arrive_in_the_order_they_were_published() {
    let mut registry = SubscriptionRegistry::new();
    let mut sub = registry.get_or_create(7);
    for id in 1..=3 {
        assert_eq!(registry.publish(7, event(id)), Delivery::Delivered(1));
    }
    assert_eq!(next(&mut sub), Ok(1));
    assert_eq!(next(&mut sub), Ok(2));
    assert_eq!(next(&mut sub), Ok(3));
    assert_eq!(next(&mut sub), Err(TryRecvError::Empty));
}

#[test]
fn a_session_sees_only_what_is_published_after_it_joined() {
    let mut registry = SubscriptionRegistry::new();
    let mut early = registry.get_or_create(7);
    registry.publish(7, event(1));
    let mut late = registry.get_or_create(7);
    registry.publish(7, event(2));
    assert_eq!(next(&mut early), Ok(1));
    assert_eq!(next(&mut early), Ok(2));
    assert_eq!(next(&mut late), Ok(2));
}

#[test]
fn publishing_to_nobody_makes_an_idle_entry() {
    let mut registry = SubscriptionRegistry::new();
    assert_eq!(registry.publish(3, event(1)), Delivery::Unobserved);
    assert_eq!(registry.subscribers(3), Some(0));
    assert_eq!(registry.publish(3, event(2)), Delivery::Unobserved);
    // Whoever connects later has missed both.
    let mut sub = registry.get_or_create(3);
    assert_eq!(registry.subscribers(3), Some(1));
    assert_eq!(next(&mut sub), Err(TryRecvError::Empty));
    assert_eq!(registry.publish(3, event(3)), Delivery::Delivered(1));
    assert_eq!(next(&mut sub), Ok(3));
    assert!(registry.release(sub));
    assert!(!registry.contains(3));
}

#[test]
fn the_last_release_removes_the_entry() {
    let mut registry = SubscriptionRegistry::new();
    let first = registry.get_or_create(7);
    let mut second = registry.get_or_create(7);
    let other = registry.get_or_create(8);
    assert!(!registry.release(first));
    assert_eq!(registry.subscribers(7), Some(1));
    assert_eq!(registry.publish(7, event(1)), Delivery::Delivered(1));
    assert_eq!(next(&mut second), Ok(1));
    assert!(registry.release(second));
    assert_eq!(registry.subscribers(7), None);
    assert_eq!(registry.subscribers(8), Some(1));
    assert!(registry.release(other));
    assert!(!registry.contains(8));
}

#[test]
fn a_slow_session_loses_the_oldest_events() {
    let mut registry = SubscriptionRegistry::new();
    let mut sub = registry.get_or_create(7);
    let total = CHANNEL_CAPACITY as i64 + 10;
    for id in 1..=total {
        assert_eq!(registry.publish(7, event(id)), Delivery::Delivered(1));
    }
    assert_eq!(next(&mut sub), Err(TryRecvError::Lagged(10)));
    assert_eq!(next(&mut sub), Ok(11));
}

#[test]
fn delivery_reads_the_channels_answer() {
    assert_eq!(delivery_of(Some(2)), Delivery::Delivered(2));
    assert_eq!(delivery_of(None), Delivery::Unobserved);
    assert!(MAX_SUBSCRIBERS >= 1 << 20);
}

#[test]
fn route_reaches_the_connected_and_ignores_the_rest() {
    // Chat 42 with members 1, 2, 3 was renamed; 1 and 2 are connected.
    let mut registry = SubscriptionRegistry::new();
    let mut one = registry.get_or_create(1);
    let mut two = registry.get_or_create(2);
    let payload = ChangePayload {
        entity: "chat".to_string(),
        op: "ChatNameUpdated".to_string(),
        snapshot: Snapshot::Chat(chat(42, Some("Project X"), &[1, 2, 3])),
        recipients: vec![1, 2, 3],
    };
    let notification = Notification::load(payload).unwrap();
    let outcome = route(&mut registry, &notification);
    assert_eq!(
        outcome,
        vec![Delivery::Delivered(1), Delivery::Delivered(1), Delivery::Unobserved]
    );
    for sub in [&mut one, &mut two] {
        let got = sub.receiver().try_recv().unwrap();
        assert_eq!(got.name(), "ChatNameUpdated");
        match got.as_ref() {
            AppEvent::ChatNameUpdated(c) => assert_eq!(c.name.as_deref(), Some("Project X")),
            other => panic!("unexpected {:?}", other),
        }
        assert_eq!(sub.receiver().try_recv().unwrap_err(), TryRecvError::Empty);
    }
    assert_eq!(registry.subscribers(3), Some(0));
    assert_eq!(registry.subscribers(1), Some(1));
}

#[test]
fn route_keeps_the_order_of_events_on_a_chat() {
    // User 5 sends to chat 7 with members 5 and 6, after the chat was made.
    let mut registry = SubscriptionRegistry::new();
    let mut five = registry.get_or_create(5);
    let mut six = registry.get_or_create(6);
    let made = Notification::load(ChangePayload {
        entity: "chat".to_string(),
        op: "NewChat".to_string(),
        snapshot: Snapshot::Chat(chat(7, None, &[5, 6])),
        recipients: vec![],
    })
    .unwrap();
    let sent = Notification::load(ChangePayload {
        entity: "message".to_string(),
        op: "NewMessage".to_string(),
        snapshot: Snapshot::Message(message(100, 7, 5, "hello")),
        recipients: vec![5, 6],
    })
    .unwrap();
    assert_eq!(sent.user_ids, vec![5, 6]);
    route(&mut registry, &made);
    route(&mut registry, &sent);
    for sub in [&mut five, &mut six] {
        assert_eq!(sub.receiver().try_recv().unwrap().name(), "NewChat");
        let got = sub.receiver().try_recv().unwrap();
        assert_eq!(*got, AppEvent::NewMessage(message(100, 7, 5, "hello")));
    }
}

#[test]
fn session_streams_events_and_heartbeats() {
    let mut registry = SubscriptionRegistry::new();
    let mut session = streaming(&mut registry, 7);
    assert_eq!(session.user_id(), 7);
    assert_eq!(registry.subscribers(7), Some(1));
    registry.publish(7, event(1));
    registry.publish(7, event(2));
    for id in 1..=2 {
        let input = poll(&mut session);
        match session.step(&mut registry, input) {
            SessionAction::Emit(e) => assert_eq!(message_id(&e), id),
            other => panic!("unexpected {:?}", other),
        }
    }
    let input = poll(&mut session);
    assert!(matches!(session.step(&mut registry, input), SessionAction::KeepAlive));
    assert_eq!(session.state(), SessionState::Streaming);
    assert_eq!(heartbeat_text(), "keep-alive-text");
    assert_eq!(HEARTBEAT_SECS, 1);
}

#[test]
fn session_counts_what_it_missed() {
    let mut registry = SubscriptionRegistry::new();
    let mut session = streaming(&mut registry, 7);
    assert!(matches!(session.step(&mut registry, SessionInput::Lagged(3)), SessionAction::Idle));
    assert_eq!(session.missed(), 3);
    session.step(&mut registry, SessionInput::Lagged(u64::MAX));
    assert_eq!(session.missed(), u64::MAX);
    assert_eq!(session.state(), SessionState::Streaming);
}

#[test]
fn session_releases_once_however_it_ends() {
    for ending in [SessionInput::Disconnected, SessionInput::Shutdown, SessionInput::ChannelClosed]
    {
        let mut registry = SubscriptionRegistry::new();
        let mut first = streaming(&mut registry, 7);
        let mut second = streaming(&mut registry, 7);
        assert_eq!(registry.subscribers(7), Some(2));
        assert!(matches!(first.step(&mut registry, ending.clone()), SessionAction::Close));
        assert_eq!(first.state(), SessionState::Terminated);
        assert!(first.receiver().is_none());
        assert_eq!(registry.subscribers(7), Some(1));
        // Ending it again releases nothing more.
        assert!(matches!(first.step(&mut registry, ending.clone()), SessionAction::Close));
        assert!(matches!(first.step(&mut registry, SessionInput::Tick), SessionAction::Close));
        assert_eq!(registry.subscribers(7), Some(1));
        // The other session still streams.
        registry.publish(7, event(1));
        let input = poll(&mut second);
        assert!(matches!(second.step(&mut registry, input), SessionAction::Emit(_)));
        assert!(matches!(second.step(&mut registry, ending), SessionAction::Close));
        assert!(!registry.contains(7));
    }
}

#[test]
fn session_that_never_connected_releases_nothing() {
    let mut registry = SubscriptionRegistry::new();
    let _other = streaming(&mut registry, 7);
    let mut session = StreamSession::new(&user(7));
    assert!(session.receiver().is_none());
    assert!(matches!(session.step(&mut registry, SessionInput::Tick), SessionAction::Idle));
    assert!(matches!(session.step(&mut registry, event_input()), SessionAction::Idle));
    assert!(matches!(session.step(&mut registry, SessionInput::Disconnected), SessionAction::Close));
    assert_eq!(session.state(), SessionState::Terminated);
    assert_eq!(registry.subscribers(7), Some(1));
    // It cannot be connected afterwards.
    session.connect(&mut registry);
    assert_eq!(session.state(), SessionState::Terminated);
    assert_eq!(registry.subscribers(7), Some(1));
}

fn event_input() -> SessionInput {
    SessionInput::Event(event(1))
}

#[test]
fn session_connects_once() {
    let mut registry = SubscriptionRegistry::new();
    let mut session = streaming(&mut registry, 7);
    session.connect(&mut registry);
    assert_eq!(registry.subscribers(7), Some(1));
    assert_eq!(session.state(), SessionState::Streaming);
}

#[test]
fn a_later_session_joins_the_channel_of_the_first() {
    let mut registry = SubscriptionRegistry::new();
    let mut first = registry.get_or_create(7);
    let mut other = registry.get_or_create(8);
    let mut second = registry.get_or_create(7);
    assert!(first.receiver().same_channel(second.receiver()));
    assert!(!first.receiver().same_channel(other.receiver()));
    assert_eq!(registry.publish(7, event(1)), Delivery::Delivered(2));
    assert_eq!(next(&mut first), Ok(1));
    assert_eq!(next(&mut second), Ok(1));
    assert_eq!(next(&mut other), Err(TryRecvError::Empty));
    // One session ends: the other keeps the channel and still hears.
    assert!(!registry.release(first));
    let mut third = registry.get_or_create(7);
    assert!(second.receiver().same_channel(third.receiver()));
    assert_eq!(registry.publish(7, event(2)), Delivery::Delivered(2));
    assert_eq!(next(&mut second), Ok(2));
    assert_eq!(next(&mut third), Ok(2));
    assert_eq!(registry.publish(8, event(3)), Delivery::Delivered(1));
    assert_eq!(next(&mut other), Ok(3));
}

#[test]
fn an_abandoned_channel_answers_that_nobody_heard() {
    let mut registry = SubscriptionRegistry::new();
    let sub = registry.get_or_create(7);
    // The handle is dropped without being given back: the entry stays,
    // and what is published finds no listener.
    drop(sub);
    assert_eq!(registry.subscribers(7), Some(1));
    assert_eq!(registry.publish(7, event(1)), Delivery::Unobserved);
}
