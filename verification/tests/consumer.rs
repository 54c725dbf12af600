use queue_sync::consumer::{ConsumeAction, ConsumeLoop, Delivery};

#[test]
fn a_started_consumer_receives_and_a_stopped_one_stops() {
    let mut c = ConsumeLoop::new();
    assert!(c.is_started);
    assert!(matches!(c.poll::<u8>(), ConsumeAction::Receive));
    assert_eq!(c.stop(), Ok(()));
    assert!(!c.is_started);
    assert!(matches!(c.poll::<u8>(), ConsumeAction::Stop));
    c.start();
    assert!(matches!(c.poll::<u8>(), ConsumeAction::Receive));
}

#[test]
fn a_text_payload_is_decoded() {
    let c = ConsumeLoop::new();
    let d = Delivery::Message { payload: Some("{\"data\":\"héllo\"}".as_bytes().to_vec()) };
    match c.on_delivery::<u8>(d) {
        ConsumeAction::Decode(text) => assert_eq!(text, "{\"data\":\"héllo\"}"),
        _ => panic!("expected a decode"),
    }
}

#[test]
fn a_payload_that_is_no_text_is_passed_over() {
    let c = ConsumeLoop::new();
    let d = Delivery::Message { payload: Some(vec![0xff, 0xfe, 0x41]) };
    assert!(matches!(c.on_delivery::<u8>(d), ConsumeAction::Receive));
    let mut stopped = ConsumeLoop::new();
    stopped.stop().unwrap();
    let d = Delivery::Message { payload: Some(vec![0xc3]) };
    assert!(matches!(stopped.on_delivery::<u8>(d), ConsumeAction::Stop));
}

#[test]
fn a_message_without_payload_and_an_error_are_passed_over() {
    let c = ConsumeLoop::new();
    assert!(matches!(c.on_delivery::<u8>(Delivery::Message { payload: None }), ConsumeAction::Receive));
    let f = Delivery::Failure { error: "broker transport failure".to_string() };
    assert!(matches!(c.on_delivery::<u8>(f), ConsumeAction::Receive));
}

#[test]
fn a_decoded_message_is_dispatched_without_key() {
    let c = ConsumeLoop::new();
    match c.on_decoded(Ok(9u8)) {
        ConsumeAction::Dispatch { message, key } => {
            assert_eq!(message, 9);
            assert_eq!(key, None);
        }
        _ => panic!("expected a dispatch"),
    }
    assert!(matches!(c.on_decoded::<u8>(Err("bad json".to_string())), ConsumeAction::Receive));
}

#[test]
fn the_listener_outcome_does_not_stop_the_loop() {
    let c = ConsumeLoop::new();
    assert!(matches!(c.on_dispatched::<u8>(Err("refused".to_string())), ConsumeAction::Receive));
    assert!(matches!(c.on_dispatched::<u8>(Ok(())), ConsumeAction::Receive));
}
