use mqtt_channel_client::client::Client;
use mqtt_channel_client::config::ClientConfig;
use mqtt_channel_client::errors::Error;
use mqtt_channel_client::events::Event;
use mqtt_channel_client::lifecycle::{
    LifecycleAction as A, LifecycleEvent as E, LifecycleState as S, LifecycleState, Transition,
};
use mqtt_channel_client::subscription::{Subscription, SubscriptionBuilder};
use tokio::sync::broadcast::error::TryRecvError;

fn subscription(topic: &str, qos: i32) -> Subscription {
    SubscriptionBuilder::default().topic(topic.to_string()).qos(qos).build().unwrap()
}

fn join_error() -> tokio::task::JoinError {
    let runtime = tokio::runtime::Builder::new_current_thread().build().unwrap();
    runtime.block_on(async {
        let handle = tokio::spawn(async {
            loop {
                tokio::task::yield_now().await;
            }
        });
        handle.abort();
        handle.await.unwrap_err()
    })
}

#[test]
fn new_client_is_idle_and_empty() {
    let client = Client::new(ClientConfig::default());
    assert_eq!(client.state(), LifecycleState::Idle);
    assert!(client.subscriptions().is_empty());
    assert_eq!(client.config(), &ClientConfig::default());
}

#[test]
fn machine_table() {
    let same = |s: S, action: A| Transition { next: s, action };
    for s in [S::Idle, S::Starting, S::Running, S::Stopping] {
        let start = s.step(E::StartRequested);
        if s == S::Idle {
            assert_eq!(start, Transition { next: S::Starting, action: A::Connect });
        } else {
            assert_eq!(start, same(s, A::RejectStart));
        }
        let stop = s.step(E::StopRequested);
        if s == S::Running {
            assert_eq!(stop, same(s, A::PublishStop));
        } else {
            assert_eq!(stop, same(s, A::RejectStop));
        }
        assert_eq!(s.step(E::StopUndelivered), same(s, A::Nothing));
    }
    assert_eq!(
        S::Starting.step(E::ConnectSucceeded),
        Transition { next: S::Running, action: A::SpawnTask }
    );
    assert_eq!(S::Starting.step(E::ConnectFailed), Transition { next: S::Idle, action: A::Nothing });
    assert_eq!(
        S::Running.step(E::StopPublished),
        Transition { next: S::Stopping, action: A::AwaitTask }
    );
    assert_eq!(S::Stopping.step(E::TaskJoined), Transition { next: S::Idle, action: A::Nothing });
    for s in [S::Idle, S::Running, S::Stopping] {
        assert_eq!(s.step(E::ConnectSucceeded), same(s, A::Nothing));
        assert_eq!(s.step(E::ConnectFailed), same(s, A::Nothing));
    }
    for s in [S::Idle, S::Starting, S::Stopping] {
        assert_eq!(s.step(E::StopPublished), same(s, A::Nothing));
    }
    for s in [S::Idle, S::Starting, S::Running] {
        assert_eq!(s.step(E::TaskJoined), same(s, A::Nothing));
    }
    assert!(!S::Idle.has_task());
    assert!(!S::Starting.has_task());
    assert!(S::Running.has_task());
    assert!(S::Stopping.has_task());
}

#[test]
fn second_start_fails_in_every_state_but_idle() {
    let mut client = Client::new(ClientConfig::default());
    assert!(client.start().is_ok());
    assert_eq!(client.state(), LifecycleState::Starting);
    assert!(matches!(client.start(), Err(Error::ClientAlreadyStarted)));
    assert_eq!(client.state(), LifecycleState::Starting);

    let _rx = client.finish_start(Ok(())).unwrap();
    assert_eq!(client.state(), LifecycleState::Running);
    assert!(matches!(client.start(), Err(Error::ClientAlreadyStarted)));
    assert_eq!(client.state(), LifecycleState::Running);

    client.stop().unwrap();
    assert_eq!(client.state(), LifecycleState::Stopping);
    assert!(matches!(client.start(), Err(Error::ClientAlreadyStarted)));

    client.finish_stop(Ok(())).unwrap();
    assert_eq!(client.state(), LifecycleState::Idle);
    assert!(client.start().is_ok());
}

#[test]
fn stop_without_task_fails() {
    let mut client = Client::new(ClientConfig::default());
    let mut observer = client.rx_channel();
    assert!(matches!(client.stop(), Err(Error::ClientAlreadyStopped)));
    assert_eq!(client.state(), LifecycleState::Idle);
    client.start().unwrap();
    assert!(matches!(client.stop(), Err(Error::ClientAlreadyStopped)));
    assert_eq!(client.state(), LifecycleState::Starting);
    assert_eq!(observer.try_recv(), Err(TryRecvError::Empty));
}

#[test]
fn stop_publishes_the_request_once() {
    let mut client = Client::new(ClientConfig::default());
    client.start().unwrap();
    let mut rx = client.finish_start(Ok(())).unwrap();
    client.stop().unwrap();
    assert!(matches!(client.stop(), Err(Error::ClientAlreadyStopped)));
    assert_eq!(rx.try_recv().unwrap(), Event::Stop);
    assert_eq!(rx.try_recv(), Err(TryRecvError::Empty));
}

#[test]
fn failed_connection_leaves_the_client_idle() {
    let mut client = Client::new(ClientConfig::default());
    client.start().unwrap();
    match client.finish_start(Err("connection refused".to_string())) {
        Err(Error::MqttError(reason)) => assert_eq!(reason, "connection refused"),
        other => panic!("unexpected: {:?}", other.map(|_| ())),
    }
    assert_eq!(client.state(), LifecycleState::Idle);
    assert!(client.start().is_ok());
}

#[test]
fn stop_that_nobody_receives_keeps_the_client_running() {
    let mut client = Client::new(ClientConfig::default());
    client.start().unwrap();
    let rx = client.finish_start(Ok(())).unwrap();
    drop(rx);
    assert!(matches!(client.stop(), Err(Error::ChannelError(Event::Stop))));
    assert_eq!(client.state(), LifecycleState::Running);
}

#[test]
fn abnormal_end_of_the_task_is_reported_by_stop() {
    let mut client = Client::new(ClientConfig::default());
    client.start().unwrap();
    let _rx = client.finish_start(Ok(())).unwrap();
    client.stop().unwrap();
    match client.finish_stop(Err(join_error())) {
        Err(Error::JoinError(e)) => {
            assert!(e.is_cancelled());
            assert_eq!(Error::JoinError(e).message(), "Task join error");
        }
        other => panic!("unexpected: {:?}", other),
    }
    assert_eq!(client.state(), LifecycleState::Idle);
}

#[test]
fn send_needs_a_receiver() {
    let mut client = Client::new(ClientConfig::default());
    let m = mqtt_channel_client::events::Message::new("t".to_string(), vec![1], 1);
    match client.send(m.clone()) {
        Err(Error::ChannelError(Event::Tx(back))) => assert_eq!(back, m),
        other => panic!("unexpected: {:?}", other),
    }
    let mut rx = client.rx_channel();
    client.send(m.clone()).unwrap();
    assert_eq!(rx.try_recv().unwrap(), Event::Tx(m));
}

#[test]
fn subscribe_caches_and_hands_back_only_when_connected() {
    let mut client = Client::new(ClientConfig::default());
    assert_eq!(client.subscribe(subscription("a", 0), false), None);
    assert_eq!(client.subscribe(subscription("b", 1), true), Some(subscription("b", 1)));
    assert_eq!(client.subscribe(subscription("a", 0), false), None);
    assert_eq!(
        client.subscriptions(),
        vec![subscription("a", 0), subscription("b", 1), subscription("a", 0)]
    );
    assert_eq!(client.state(), LifecycleState::Idle);
}

#[test]
fn subscriptions_made_before_start_are_replayed_in_call_order() {
    let mut client = Client::new(ClientConfig::default());
    let asked = vec![
        subscription("one/#", 2),
        subscription("two/+", 0),
        subscription("one/#", 2),
        subscription("three", 1),
    ];
    for s in &asked {
        client.subscribe(s.clone(), false);
    }
    client.start().unwrap();
    let _rx = client.finish_start(Ok(())).unwrap();
    let replay = client.on_connected();
    assert!(replay.delivered);
    assert_eq!(replay.subscriptions, asked);
}
