use vstd::prelude::*;

use crate::correlation::CanGetCorrelationId;
use crate::listener::Listener;
use crate::subscriber::{closed_channel_text, no_sender_text, CanSubscribe, Subscriber};

verus! {

/// The listener of the reply topic: it hands each reply to the caller that
/// waits on the reply's correlation id.
#[verifier::reject_recursive_types(R)]
pub struct ListenerSynchronizer<'a, R> {
    pub subscriber: &'a Subscriber<R>,
}

impl<'a, R: CanGetCorrelationId + Clone> Listener<R> for ListenerSynchronizer<'a, R> {
    /// Sends `message` to the caller registered under its own correlation id,
    /// whatever the key; where nobody waits on that id, the reply is refused,
    /// and where the caller has gone, the channel error's text comes back.
    fn on_message(&self, message: &R, _key: Option<&str>) -> (r: Result<(), String>)
        ensures
            self.subscriber@.contains_key(message.correlation_id_view()) ==> (r is Ok || (r matches Err(
                e,
            ) && e@ == closed_channel_text())),
            !self.subscriber@.contains_key(message.correlation_id_view()) ==> (r matches Err(e)
                && e@ == no_sender_text(message.correlation_id_view())),
    {
        let correlation_id = message.get_correlation_id();
        self.subscriber.send(correlation_id.as_str(), message)
    }
}

} // verus!
