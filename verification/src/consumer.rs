use vstd::prelude::*;
use vstd::string::*;
use vstd::utf8::{decode_utf8, valid_utf8};

verus! {

/// `std::str::from_utf8`: the text that `bytes` encode, where they are
/// well-formed UTF-8, and nothing otherwise.
#[verifier::external_body]
fn utf8_text(bytes: &[u8]) -> (r: Option<&str>)
    ensures
        r is Some <==> valid_utf8(bytes@),
        r matches Some(text) ==> text@ == decode_utf8(bytes@),
{
    match std::str::from_utf8(bytes) {
        Ok(text) => Some(text),
        Err(_) => None,
    }
}

/// What one receive on the queue gave: a message, with its payload where it
/// has one, or the text of the queue's error.
pub enum Delivery {
    Message { payload: Option<Vec<u8>> },
    Failure { error: String },
}

/// The next work of a consumer's loop.
pub enum ConsumeAction<M> {
    /// Receive the next message of the queue.
    Receive,
    /// Turn this text payload into a message.
    Decode(String),
    /// Hand `message` to the listener, under `key` where there is one; the
    /// listener's outcome does not stop the loop.
    Dispatch { message: M, key: Option<String> },
    /// Leave the loop; the consumer ends without error.
    Stop,
}

/// The loop of a consumer that hands each message of a queue to a
/// listener, for as long as the consumer is started.
pub struct ConsumeLoop {
    pub is_started: bool,
}

/// The payloads that the loop turns into messages: well-formed UTF-8 text.
pub open spec fn decodable(d: Delivery) -> bool {
    d matches Delivery::Message { payload: Some(bytes) } && valid_utf8(bytes@)
}

impl ConsumeLoop {
    /// A consumer is started as soon as it is made.
    pub fn new() -> (c: Self)
        ensures
            c.is_started,
    {
        ConsumeLoop { is_started: true }
    }

    /// Starts the consumer.
    pub fn start(&mut self)
        ensures
            final(self).is_started,
    {
        self.is_started = true;
    }

    /// Stops the consumer: its loop ends at its next turn.
    pub fn stop(&mut self) -> (r: Result<(), String>)
        ensures
            r is Ok,
            !final(self).is_started,
    {
        self.is_started = false;
        Ok(())
    }

    /// The head of the loop: receive the next message while the consumer is
    /// started, else leave the loop.
    pub fn poll<M>(&self) -> (a: ConsumeAction<M>)
        ensures
            a is Receive <==> self.is_started,
            a is Stop <==> !self.is_started,
    {
        if self.is_started {
            ConsumeAction::Receive
        } else {
            ConsumeAction::Stop
        }
    }

    /// After a receive: a payload of well-formed UTF-8 is to be decoded; a
    /// message without payload, a payload that is no text, and an error of
    /// the queue are passed over, and the loop goes on.
    pub fn on_delivery<M>(&self, delivery: Delivery) -> (a: ConsumeAction<M>)
        ensures
            decodable(delivery) ==> (a matches ConsumeAction::Decode(text) && (delivery matches Delivery::Message { payload: Some(bytes) }
                && text@ == decode_utf8(bytes@))),
            !decodable(delivery) ==> (a is Receive <==> self.is_started) && (a is Stop
                <==> !self.is_started),
    {
        match delivery {
            Delivery::Message { payload: Some(bytes) } => match utf8_text(bytes.as_slice()) {
                Some(text) => ConsumeAction::Decode(String::from_str(text)),
                None => self.poll(),
            },
            Delivery::Message { payload: None } => self.poll(),
            Delivery::Failure { error: _ } => self.poll(),
        }
    }

    /// After a decode: a message is handed to the listener, with no key; a
    /// payload that is no message is passed over, and the loop goes on.
    pub fn on_decoded<M>(&self, decoded: Result<M, String>) -> (a: ConsumeAction<M>)
        ensures
            decoded matches Ok(m) ==> a == (ConsumeAction::Dispatch { message: m, key: None }),
            decoded is Err ==> (a is Receive <==> self.is_started) && (a is Stop
                <==> !self.is_started),
    {
        match decoded {
            Ok(message) => ConsumeAction::Dispatch { message, key: None },
            Err(_) => self.poll(),
        }
    }

    /// After the listener: whatever it answered, the loop goes on.
    pub fn on_dispatched<M>(&self, outcome: Result<(), String>) -> (a: ConsumeAction<M>)
        ensures
            a is Receive <==> self.is_started,
            a is Stop <==> !self.is_started,
    {
        self.poll()
    }
}

} // verus!
