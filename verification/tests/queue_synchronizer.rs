use std::sync::mpsc::{channel, Receiver};
use std::time::Duration;

use queue_sync::example::ExResultRecord;
use queue_sync::listener::Listener;
use queue_sync::listener_synchronizer::ListenerSynchronizer;
use queue_sync::queue_synchronizer::{
    ResultWaiter, WaitAction, WaitEvent, WaitPhase, WaitRequest, REPLY_TIMEOUT_SECS,
};
use queue_sync::subscriber::{CanSubscribe, Subscriber};

fn request(key: Option<&str>) -> WaitRequest {
    WaitRequest {
        correlation_id: "cid-1".to_string(),
        topic: "commands".to_string(),
        key: key.map(|k| k.to_string()),
    }
}

#[test]
fn a_successful_wait_subscribes_produces_receives_and_unsubscribes() {
    let (w, a) = ResultWaiter::<u32>::begin(request(Some("k")));
    assert!(matches!(a, WaitAction::Subscribe { ref correlation_id } if correlation_id == "cid-1"));
    assert!(matches!(w.phase, WaitPhase::Subscribing));

    let ev = WaitEvent::Subscribed(Ok(()));
    assert!(w.accepts(&ev));
    let (w, a) = w.step(ev);
    match a {
        WaitAction::Produce { topic, key } => {
            assert_eq!(topic, "commands");
            assert_eq!(key, Some("k".to_string()));
        }
        _ => panic!("expected a publication"),
    }

    let (w, a) = w.step(WaitEvent::Produced(Ok(())));
    assert!(matches!(a, WaitAction::AwaitReply { timeout_secs: 30 }));
    assert_eq!(REPLY_TIMEOUT_SECS, 30);

    let (w, a) = w.step(WaitEvent::Received(Ok(42)));
    assert!(matches!(a, WaitAction::Unsubscribe { ref correlation_id } if correlation_id == "cid-1"));
    assert!(matches!(w.phase, WaitPhase::Unsubscribing(42)));

    let (w, a) = w.step(WaitEvent::Unsubscribed(Ok(())));
    assert!(matches!(a, WaitAction::Finish(Ok(42))));
    assert!(matches!(w.phase, WaitPhase::Done));
    assert!(!w.accepts(&WaitEvent::Subscribed(Ok(()))));
    assert_eq!(w.request.correlation_id, "cid-1");
}

#[test]
fn a_failed_subscription_is_handed_back() {
    let (w, _) = ResultWaiter::<u32>::begin(request(None));
    let (w, a) = w.step(WaitEvent::Subscribed(Err("locked".to_string())));
    assert!(matches!(a, WaitAction::Finish(Err(ref e)) if e == "locked"));
    assert!(matches!(w.phase, WaitPhase::Done));
}

#[test]
fn a_failed_publication_is_handed_back_without_unsubscribing() {
    let (w, _) = ResultWaiter::<u32>::begin(request(None));
    let (w, a) = w.step(WaitEvent::Subscribed(Ok(())));
    assert!(matches!(a, WaitAction::Produce { key: None, .. }));
    let (w, a) = w.step(WaitEvent::Produced(Err("broker down".to_string())));
    assert!(matches!(a, WaitAction::Finish(Err(ref e)) if e == "broker down"));
    assert!(matches!(w.phase, WaitPhase::Done));
}

#[test]
fn a_reply_time_out_is_reported_with_its_prefix() {
    let (w, _) = ResultWaiter::<u32>::begin(request(None));
    let (w, _) = w.step(WaitEvent::Subscribed(Ok(())));
    let (w, _) = w.step(WaitEvent::Produced(Ok(())));
    let (w, a) = w.step(WaitEvent::Received(Err("timed out waiting on channel".to_string())));
    assert!(matches!(a, WaitAction::Finish(Err(ref e))
        if e == "Erreur lors de l'envoi: timed out waiting on channel"));
    assert!(matches!(w.phase, WaitPhase::Done));
}

#[test]
fn a_failed_unsubscription_is_handed_back() {
    let (w, _) = ResultWaiter::<u32>::begin(request(None));
    let (w, _) = w.step(WaitEvent::Subscribed(Ok(())));
    let (w, _) = w.step(WaitEvent::Produced(Ok(())));
    let (w, _) = w.step(WaitEvent::Received(Ok(5)));
    let (_, a) = w.step(WaitEvent::Unsubscribed(Err("gone".to_string())));
    assert!(matches!(a, WaitAction::Finish(Err(ref e)) if e == "gone"));
}

#[test]
fn a_wait_accepts_only_the_outcome_it_stands_on() {
    let (w, _) = ResultWaiter::<u32>::begin(request(None));
    assert!(!w.accepts(&WaitEvent::Produced(Ok(()))));
    assert!(!w.accepts(&WaitEvent::Received(Ok(1))));
    assert!(!w.accepts(&WaitEvent::Unsubscribed(Ok(()))));
    assert!(w.accepts(&WaitEvent::Subscribed(Err("x".to_string()))));
}

#[test]
fn a_full_exchange_through_the_registry_leaves_it_empty() {

    let mut registry: Subscriber<ExResultRecord> = Subscriber::new();
    let (mut waiter, mut action) = ResultWaiter::<ExResultRecord>::begin(request(None));
    let mut reply: Option<Receiver<ExResultRecord>> = None;
    let outcome = loop {
        let event = match action {
            WaitAction::Subscribe { correlation_id } => {
                let (tx, rx) = channel();
                reply = Some(rx);
                WaitEvent::Subscribed(registry.subscribe(&correlation_id, tx))
            }
            WaitAction::Produce { topic, .. } => {
                assert_eq!(topic, "commands");
                let answer = ExResultRecord {
                    nom: "n".to_string(),
                    prenom: "p".to_string(),
                    correlation_id: "cid-1".to_string(),
                    at: "a".to_string(),
                    by: "b".to_string(),
                };
                let listener = ListenerSynchronizer { subscriber: &registry };
                WaitEvent::Produced(listener.on_message(&answer, None))
            }
            WaitAction::AwaitReply { timeout_secs } => WaitEvent::Received(
                reply
                    .as_ref()
                    .unwrap()
                    .recv_timeout(Duration::from_secs(timeout_secs))
                    .map_err(|e| e.to_string()),
            ),
            WaitAction::Unsubscribe { correlation_id } => {
                WaitEvent::Unsubscribed(registry.unsubscribe(&correlation_id))
            }
            WaitAction::Finish(outcome) => break outcome,
        };
        assert!(waiter.accepts(&event));
        let (w, a) = waiter.step(event);
        waiter = w;
        action = a;
    };
    let record = outcome.unwrap();
    assert_eq!(record.correlation_id, "cid-1");
    assert_eq!(record.at, "a");
    assert_eq!(registry.len(), 0);
}

#[test]
fn a_reply_channel_without_sender_is_reported() {
    let (tx, rx): (_, Receiver<u32>) = channel();
    drop(tx);
    let channel_error = rx.recv_timeout(Duration::from_secs(1)).map_err(|e| e.to_string());
    let (w, _) = ResultWaiter::<u32>::begin(request(None));
    let (w, _) = w.step(WaitEvent::Subscribed(Ok(())));
    let (w, _) = w.step(WaitEvent::Produced(Ok(())));
    let (_, a) = w.step(WaitEvent::Received(channel_error));
    assert!(matches!(a, WaitAction::Finish(Err(ref e))
        if e == "Erreur lors de l'envoi: channel is empty and sending half is closed"));
}
