use mqtt_channel_client::bus::{outcome_of_send, EventBus};
use mqtt_channel_client::errors::Error;
use mqtt_channel_client::events::{Event, Message, StatusEvent};
use tokio::sync::broadcast::error::TryRecvError;

fn tx(topic: &str, payload: &[u8]) -> Event {
    Event::Tx(Message::new(topic.to_string(), payload.to_vec(), 1))
}

#[test]
fn publish_without_receiver_fails_and_hands_the_event_back() {
    let mut bus = EventBus::new(16);
    match bus.publish(tx("a", b"x")) {
        Err(Error::ChannelError(event)) => assert_eq!(event, tx("a", b"x")),
        other => panic!("unexpected: {:?}", other),
    }
}

#[test]
fn publish_with_receivers_reaches_each_of_them() {
    let mut bus = EventBus::new(16);
    let mut first = bus.subscribe();
    let mut second = bus.subscribe();
    assert_eq!(bus.publish(tx("a", b"1")).unwrap(), 2);
    assert_eq!(bus.publish(Event::Status(StatusEvent::Connected)).unwrap(), 2);
    for rx in [&mut first, &mut second] {
        assert_eq!(rx.try_recv().unwrap(), tx("a", b"1"));
        assert_eq!(rx.try_recv().unwrap(), Event::Status(StatusEvent::Connected));
        assert_eq!(rx.try_recv(), Err(TryRecvError::Empty));
    }
}

#[test]
fn receiver_sees_only_what_follows_its_subscription() {
    let mut bus = EventBus::new(16);
    let mut early = bus.subscribe();
    bus.publish(tx("before", b"")).unwrap();
    let mut late = bus.subscribe();
    bus.publish(tx("after", b"")).unwrap();
    assert_eq!(early.try_recv().unwrap(), tx("before", b""));
    assert_eq!(early.try_recv().unwrap(), tx("after", b""));
    assert_eq!(late.try_recv().unwrap(), tx("after", b""));
    assert_eq!(late.try_recv(), Err(TryRecvError::Empty));
}

#[test]
fn publish_fails_again_once_every_receiver_is_gone() {
    let mut bus = EventBus::new(4);
    let rx = bus.subscribe();
    assert_eq!(bus.publish(Event::Stop).unwrap(), 1);
    drop(rx);
    assert!(matches!(bus.publish(Event::Stop), Err(Error::ChannelError(Event::Stop))));
    let _again = bus.subscribe();
    assert_eq!(bus.publish(Event::Stop).unwrap(), 1);
}

#[test]
fn slow_receiver_is_told_what_it_missed() {
    let mut bus = EventBus::new(2);
    let mut rx = bus.subscribe();
    bus.publish(tx("1", b"")).unwrap();
    bus.publish(tx("2", b"")).unwrap();
    bus.publish(tx("3", b"")).unwrap();
    assert_eq!(rx.try_recv(), Err(TryRecvError::Lagged(1)));
    assert_eq!(rx.try_recv().unwrap(), tx("2", b""));
    assert_eq!(rx.try_recv().unwrap(), tx("3", b""));
}

#[test]
fn other_producers_share_the_bus() {
    let mut bus = EventBus::new(8);
    let mut rx = bus.subscribe();
    let producer = bus.sender();
    producer.send(tx("theirs", b"a")).unwrap();
    bus.publish(tx("ours", b"b")).unwrap();
    producer.send(tx("theirs", b"c")).unwrap();
    assert_eq!(rx.try_recv().unwrap(), tx("theirs", b"a"));
    assert_eq!(rx.try_recv().unwrap(), tx("ours", b"b"));
    assert_eq!(rx.try_recv().unwrap(), tx("theirs", b"c"));
}

#[test]
fn bus_closes_when_every_sender_is_gone() {
    let bus = EventBus::new(8);
    let mut rx = bus.subscribe();
    drop(bus);
    assert_eq!(rx.try_recv(), Err(TryRecvError::Closed));
}

#[test]
fn outcome_of_send_maps_both_answers() {
    assert_eq!(outcome_of_send(Ok(3)).unwrap(), 3);
    match outcome_of_send(Err(Event::Stop)) {
        Err(Error::ChannelError(Event::Stop)) => {}
        other => panic!("unexpected: {:?}", other),
    }
}

#[test]
fn error_messages() {
    assert_eq!(Error::MqttError("boom".to_string()).message(), "MQTT error");
    assert_eq!(Error::ChannelError(Event::Stop).message(), "Channel error");
    assert_eq!(
        Error::ClientAlreadyStarted.message(),
        "Client was requested to start but is already started"
    );
    assert_eq!(
        Error::ClientAlreadyStopped.message(),
        "Client was requested to stop but is already stopped"
    );
}

#[test]
fn handles_share_the_backlog_depth_of_the_bus() {
    let bus = EventBus::new(2);
    let producer = bus.sender();
    let mut rx = bus.subscribe();
    producer.send(tx("1", b"")).unwrap();
    producer.send(tx("2", b"")).unwrap();
    assert_eq!(rx.len(), 2);
    producer.send(tx("3", b"")).unwrap();
    assert_eq!(rx.try_recv(), Err(TryRecvError::Lagged(1)));
    assert_eq!(rx.try_recv().unwrap(), tx("2", b""));
    assert_eq!(rx.try_recv().unwrap(), tx("3", b""));
    assert_eq!(rx.try_recv(), Err(TryRecvError::Empty));
}
