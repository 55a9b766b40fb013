use mqtt_channel_client::client::Client;
use mqtt_channel_client::config::ClientConfig;
use mqtt_channel_client::dispatch::{dispatch, DispatchAction, Received};
use mqtt_channel_client::events::{Event, Message, StatusEvent};
use tokio::sync::broadcast::error::TryRecvError;
use tokio::sync::broadcast::Receiver;

fn message(topic: &str, payload: &[u8], qos: i32) -> Message {
    Message::new(topic.to_string(), payload.to_vec(), qos)
}

fn receive(rx: &mut Receiver<Event>) -> Option<Received> {
    match rx.try_recv() {
        Ok(event) => Some(Received::Event(event)),
        Err(TryRecvError::Lagged(n)) => Some(Received::Lagged(n)),
        Err(TryRecvError::Closed) => Some(Received::Closed),
        Err(TryRecvError::Empty) => None,
    }
}

/// Runs the loop on what the receiver holds; returns what was published
/// and whether the loop ended.
fn drain(rx: &mut Receiver<Event>) -> (Vec<Message>, bool) {
    let mut published = Vec::new();
    while let Some(received) = receive(rx) {
        match dispatch(received) {
            DispatchAction::Publish(m) => published.push(m),
            DispatchAction::Continue => {}
            DispatchAction::Exit => return (published, true),
        }
    }
    (published, false)
}

#[test]
fn outbound_message_is_published_unchanged() {
    let m = message("out/topic", &[0, 255, 7], 2);
    assert_eq!(
        dispatch(Received::Event(Event::Tx(m))),
        DispatchAction::Publish(message("out/topic", &[0, 255, 7], 2))
    );
    let retained = Message::new_retained("r".to_string(), vec![1], 0);
    assert_eq!(
        dispatch(Received::Event(Event::Tx(retained))),
        DispatchAction::Publish(Message::new_retained("r".to_string(), vec![1], 0))
    );
}

#[test]
fn stop_and_closed_end_the_loop() {
    assert_eq!(dispatch(Received::Event(Event::Stop)), DispatchAction::Exit);
    assert_eq!(dispatch(Received::Closed), DispatchAction::Exit);
}

#[test]
fn everything_else_is_passed_over() {
    assert_eq!(dispatch(Received::Lagged(3)), DispatchAction::Continue);
    assert_eq!(dispatch(Received::Lagged(0)), DispatchAction::Continue);
    assert_eq!(
        dispatch(Received::Event(Event::Rx(message("in", b"x", 0)))),
        DispatchAction::Continue
    );
    assert_eq!(
        dispatch(Received::Event(Event::Status(StatusEvent::Connected))),
        DispatchAction::Continue
    );
    assert_eq!(
        dispatch(Received::Event(Event::Status(StatusEvent::Disconnected))),
        DispatchAction::Continue
    );
}

#[test]
fn messages_sent_before_stop_are_published_in_order() {
    let mut client = Client::new(ClientConfig::default());
    client.start().unwrap();
    let mut rx = client.finish_start(Ok(())).unwrap();

    client.send(message("a", b"1", 0)).unwrap();
    client.on_message(Some(message("in", b"x", 1)));
    client.send(message("b", b"2", 1)).unwrap();
    client.stop().unwrap();
    let late = client.tx_channel();
    late.send(Event::Tx(message("c", b"3", 2))).unwrap();

    let (published, ended) = drain(&mut rx);
    assert!(ended);
    assert_eq!(published, vec![message("a", b"1", 0), message("b", b"2", 1)]);
}

#[test]
fn loop_goes_on_after_missed_events() {
    let config = mqtt_channel_client::config::ClientConfigBuilder::default()
        .channel_size(2)
        .build()
        .unwrap();
    let mut client = Client::new(config);
    let mut rx = client.rx_channel();
    client.send(message("1", b"", 0)).unwrap();
    client.send(message("2", b"", 0)).unwrap();
    client.send(message("3", b"", 0)).unwrap();

    assert_eq!(receive(&mut rx), Some(Received::Lagged(1)));
    let (published, ended) = drain(&mut rx);
    assert!(!ended);
    assert_eq!(published, vec![message("2", b"", 0), message("3", b"", 0)]);
}

#[test]
fn loop_ends_when_the_bus_is_torn_down() {
    let mut client = Client::new(ClientConfig::default());
    let mut rx = client.rx_channel();
    client.send(message("last", b"", 0)).unwrap();
    drop(client);
    let (published, ended) = drain(&mut rx);
    assert!(ended);
    assert_eq!(published, vec![message("last", b"", 0)]);
}

#[test]
fn ping_is_answered_with_the_same_payload_and_qos() {
    let mut client = Client::new(ClientConfig::default());
    let tx = client.tx_channel();
    let mut responder = client.rx_channel();
    let mut observer = client.rx_channel();

    let payload: Vec<u8> = vec![0, 1, 2, 254, 255];
    assert!(client.on_message(Some(Message::new("ping/x".to_string(), payload.clone(), 2))));

    match responder.try_recv().unwrap() {
        Event::Rx(m) => {
            let rest = m.topic.strip_prefix("ping/").unwrap();
            let reply = Message::new(format!("pong/{}", rest), m.payload.clone(), m.qos);
            tx.send(Event::Tx(reply)).unwrap();
        }
        other => panic!("unexpected: {:?}", other),
    }

    assert_eq!(
        observer.try_recv().unwrap(),
        Event::Rx(Message::new("ping/x".to_string(), payload.clone(), 2))
    );
    assert_eq!(
        observer.try_recv().unwrap(),
        Event::Tx(Message::new("pong/x".to_string(), payload, 2))
    );
    assert_eq!(observer.try_recv(), Err(TryRecvError::Empty));
}
