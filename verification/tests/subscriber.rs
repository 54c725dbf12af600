use std::sync::mpsc::channel;

use queue_sync::correlation::CanGetCorrelationId;
use queue_sync::example::ExResultRecord;
use queue_sync::listener::Listener;
use queue_sync::listener_synchronizer::ListenerSynchronizer;
use queue_sync::subscriber::{CanSubscribe, Subscriber};

fn record(id: &str) -> ExResultRecord {
    ExResultRecord {
        nom: "paquin".to_string(),
        prenom: "pierre".to_string(),
        correlation_id: id.to_string(),
        at: "now".to_string(),
        by: "me".to_string(),
    }
}

#[test]
fn send_reaches_the_subscribed_channel() {
    let mut subscriber: Subscriber<u64> = Subscriber::new();
    let (tx, rx) = channel();
    assert_eq!(subscriber.subscribe("abc", tx), Ok(()));
    assert!(subscriber.is_subscribed("abc"));
    assert_eq!(subscriber.len(), 1);
    assert_eq!(subscriber.send("abc", &7), Ok(()));
    assert_eq!(rx.try_recv(), Ok(7));
}

#[test]
fn send_to_unknown_id_is_refused() {
    let subscriber: Subscriber<u64> = Subscriber::new();
    assert_eq!(
        subscriber.send("nobody", &7),
        Err("Aucun Sender trouvé pour l'ID 'nobody'".to_string())
    );
}

#[test]
fn send_after_unsubscribe_is_refused() {
    let mut subscriber: Subscriber<u64> = Subscriber::new();
    let (tx, rx) = channel();
    subscriber.subscribe("abc", tx).unwrap();
    assert_eq!(subscriber.unsubscribe("abc"), Ok(()));
    assert!(!subscriber.is_subscribed("abc"));
    assert_eq!(subscriber.len(), 0);
    assert_eq!(
        subscriber.send("abc", &7),
        Err("Aucun Sender trouvé pour l'ID 'abc'".to_string())
    );
    assert!(rx.try_recv().is_err());
}

#[test]
fn unsubscribe_of_unknown_id_is_harmless() {
    let mut subscriber: Subscriber<u64> = Subscriber::new();
    let (tx, rx) = channel();
    subscriber.subscribe("kept", tx).unwrap();
    assert_eq!(subscriber.unsubscribe("other"), Ok(()));
    assert_eq!(subscriber.send("kept", &1), Ok(()));
    assert_eq!(rx.try_recv(), Ok(1));
}

#[test]
fn subscribing_again_replaces_the_channel() {
    let mut subscriber: Subscriber<u64> = Subscriber::new();
    let (tx1, rx1) = channel();
    let (tx2, rx2) = channel();
    subscriber.subscribe("abc", tx1).unwrap();
    subscriber.subscribe("abc", tx2).unwrap();
    assert_eq!(subscriber.len(), 1);
    subscriber.send("abc", &3).unwrap();
    assert!(rx1.try_recv().is_err());
    assert_eq!(rx2.try_recv(), Ok(3));
}

#[test]
fn other_ids_are_untouched() {
    let mut subscriber: Subscriber<u64> = Subscriber::new();
    let (tx1, rx1) = channel();
    let (tx2, rx2) = channel();
    subscriber.subscribe("one", tx1).unwrap();
    subscriber.subscribe("two", tx2).unwrap();
    subscriber.unsubscribe("one").unwrap();
    subscriber.send("two", &2).unwrap();
    assert_eq!(rx2.try_recv(), Ok(2));
    assert!(rx1.try_recv().is_err());
}

#[test]
fn send_on_a_closed_channel_reports_the_channel_error() {
    let mut subscriber: Subscriber<u64> = Subscriber::new();
    let (tx, rx) = channel();
    subscriber.subscribe("abc", tx).unwrap();
    drop(rx);
    assert_eq!(
        subscriber.send("abc", &7),
        Err("sending on a closed channel".to_string())
    );
}

#[test]
fn subscribe_then_unsubscribe_restores_the_registry() {
    let mut subscriber: Subscriber<u64> = Subscriber::new();
    let (tx, _rx) = channel();
    subscriber.subscribe("abc", tx).unwrap();
    subscriber.unsubscribe("abc").unwrap();
    assert_eq!(subscriber.len(), 0);
    assert!(!subscriber.is_subscribed("abc"));
    assert!(subscriber.sender_for("abc").is_none());
}

#[test]
fn listener_routes_a_reply_by_its_correlation_id() {
    let mut subscriber: Subscriber<ExResultRecord> = Subscriber::new();
    let (tx1, rx1) = channel();
    let (tx2, rx2) = channel();
    subscriber.subscribe("first", tx1).unwrap();
    subscriber.subscribe("second", tx2).unwrap();
    let listener = ListenerSynchronizer { subscriber: &subscriber };
    assert_eq!(listener.on_message(&record("second"), None), Ok(()));
    let got = rx2.try_recv().unwrap();
    assert_eq!(got.get_correlation_id(), "second");
    assert_eq!(got.at, "now");
    assert!(rx1.try_recv().is_err());
}

#[test]
fn listener_refuses_a_reply_nobody_waits_for() {
    let subscriber: Subscriber<ExResultRecord> = Subscriber::new();
    let listener = ListenerSynchronizer { subscriber: &subscriber };
    assert_eq!(
        listener.on_message(&record("late"), Some("k")),
        Err("Aucun Sender trouvé pour l'ID 'late'".to_string())
    );
}

#[test]
fn listener_reports_a_caller_that_has_gone() {
    let mut subscriber: Subscriber<ExResultRecord> = Subscriber::new();
    let (tx, rx) = channel();
    subscriber.subscribe("gone", tx).unwrap();
    drop(rx);
    let listener = ListenerSynchronizer { subscriber: &subscriber };
    assert_eq!(
        listener.on_message(&record("gone"), None),
        Err("sending on a closed channel".to_string())
    );
    assert!(subscriber.is_subscribed("gone"));
}

#[test]
fn the_last_call_naming_an_id_decides_its_registration() {
    let mut subscriber: Subscriber<u64> = Subscriber::new();
    let (tx1, rx1) = channel();
    let (tx2, rx2) = channel();
    let (tx3, rx3) = channel();
    subscriber.subscribe("a", tx1).unwrap();
    subscriber.subscribe("b", tx2).unwrap();
    subscriber.unsubscribe("a").unwrap();
    subscriber.subscribe("a", tx3).unwrap();
    subscriber.unsubscribe("b").unwrap();
    assert_eq!(subscriber.len(), 1);
    assert!(!subscriber.is_subscribed("b"));
    subscriber.send("a", &5).unwrap();
    assert_eq!(rx3.try_recv(), Ok(5));
    assert!(rx1.try_recv().is_err());
    assert!(rx2.try_recv().is_err());
}
