use vstd::prelude::*;
use vstd::string::*;

use crate::text::{copy_text, opt_string};

verus! {

/// How long a publication waits for the queue to take its messages, in
/// seconds.
pub const FLUSH_TIMEOUT_SECS: u64 = 30;

/// The text that a publication the queue refused is answered with.
pub open spec fn send_failure_text() -> Seq<char> {
    "Échec lors de l'envoi du message"@
}

/// A record for the queue: `payload` goes to `topic`, under `key` where
/// there is one.
pub struct OutgoingRecord {
    pub topic: String,
    pub payload: String,
    pub key: Option<String>,
}

/// What the outside work of the last action of a publication gave.
pub enum ProduceEvent {
    /// The envelope as JSON text, or the serialiser's error.
    Serialized(Result<String, String>),
    /// Whether the queue took the record; the text of its refusal is not used.
    Sent(Result<(), String>),
    /// Whether the queue delivered everything within the time out.
    Flushed(Result<(), String>),
}

/// The next work of a publication, or its outcome.
pub enum ProduceAction {
    Send(OutgoingRecord),
    Flush { timeout_secs: u64 },
    Finish(Result<(), String>),
}

/// Where a publication stands.
pub enum ProducePhase {
    Serializing,
    Sending,
    Flushing,
    Done,
}

/// Whether `event` is the outcome of the work that `phase` waits for.
pub open spec fn produce_accepts(phase: ProducePhase, event: ProduceEvent) -> bool {
    match phase {
        ProducePhase::Serializing => event is Serialized,
        ProducePhase::Sending => event is Sent,
        ProducePhase::Flushing => event is Flushed,
        ProducePhase::Done => false,
    }
}

/// The publication of one envelope on `topic`: serialise it, send the text,
/// then wait for the queue to deliver it.
pub struct ProduceData {
    pub topic: String,
    pub key: Option<String>,
    pub timeout_secs: u64,
    pub phase: ProducePhase,
}

fn send_failure() -> (text: String)
    ensures
        text@ == send_failure_text(),
{
    String::from_str("Échec lors de l'envoi du message")
}

impl ProduceData {
    /// Starts the publication of an envelope on `topic` under `key`; the
    /// first work is to serialise the envelope.
    pub fn begin(topic: String, key: Option<String>, timeout_secs: u64) -> (p: Self)
        ensures
            p.topic == topic,
            p.key == key,
            p.timeout_secs == timeout_secs,
            p.phase == ProducePhase::Serializing,
    {
        ProduceData { topic, key, timeout_secs, phase: ProducePhase::Serializing }
    }

    /// Whether `event` is the outcome of the work that the publication
    /// stands on.
    pub fn accepts(&self, event: &ProduceEvent) -> (b: bool)
        ensures
            b == produce_accepts(self.phase, *event),
            b <==> (self.phase is Serializing && *event is Serialized) || (self.phase is Sending
                && *event is Sent) || (self.phase is Flushing && *event is Flushed),
    {
        match (&self.phase, event) {
            (ProducePhase::Serializing, ProduceEvent::Serialized(_)) => true,
            (ProducePhase::Sending, ProduceEvent::Sent(_)) => true,
            (ProducePhase::Flushing, ProduceEvent::Flushed(_)) => true,
            _ => false,
        }
    }

    /// Takes in the outcome of the last work and says what to do next. The
    /// serialised text is sent as it is, with the topic and key of the
    /// publication; delivery is awaited only once the queue took the record;
    /// the first failure ends the publication.
    pub fn step(&mut self, event: ProduceEvent) -> (a: ProduceAction)
        requires
            produce_accepts(old(self).phase, event),
        ensures
            final(self).topic == old(self).topic,
            final(self).key == old(self).key,
            final(self).timeout_secs == old(self).timeout_secs,
            a is Send ==> forall|sent: Result<(), String>|
                #[trigger] produce_accepts(final(self).phase, ProduceEvent::Sent(sent)),
            a is Flush ==> forall|flushed: Result<(), String>|
                #[trigger] produce_accepts(final(self).phase, ProduceEvent::Flushed(flushed)),
            a is Finish ==> forall|e: ProduceEvent| !produce_accepts(final(self).phase, e),
            match event {
                ProduceEvent::Serialized(Ok(text)) => final(self).phase == ProducePhase::Sending
                    && (a matches ProduceAction::Send(record) && record.topic@ == old(self).topic@
                    && record.payload == text && opt_string(record.key) == opt_string(old(self).key)),
                ProduceEvent::Serialized(Err(e)) => final(self).phase == ProducePhase::Done && a
                    == ProduceAction::Finish(Err(e)),
                ProduceEvent::Sent(Ok(())) => final(self).phase == ProducePhase::Flushing && a
                    == (ProduceAction::Flush { timeout_secs: old(self).timeout_secs }),
                ProduceEvent::Sent(Err(_)) => final(self).phase == ProducePhase::Done && (a matches ProduceAction::Finish(Err(text))
                    && text@ == send_failure_text()),
                ProduceEvent::Flushed(r) => final(self).phase == ProducePhase::Done && a
                    == ProduceAction::Finish(r),
            },
    {
        match event {
            ProduceEvent::Serialized(Ok(text)) => {
                self.phase = ProducePhase::Sending;
                ProduceAction::Send(
                    OutgoingRecord { topic: self.topic.clone(), payload: text, key: copy_text(&self.key) },
                )
            },
            ProduceEvent::Serialized(Err(e)) => {
                self.phase = ProducePhase::Done;
                ProduceAction::Finish(Err(e))
            },
            ProduceEvent::Sent(Ok(())) => {
                self.phase = ProducePhase::Flushing;
                ProduceAction::Flush { timeout_secs: self.timeout_secs }
            },
            ProduceEvent::Sent(Err(_)) => {
                self.phase = ProducePhase::Done;
                ProduceAction::Finish(Err(send_failure()))
            },
            ProduceEvent::Flushed(r) => {
                self.phase = ProducePhase::Done;
                ProduceAction::Finish(r)
            },
        }
    }
}

/// A publication takes in the outcome of each work it asks for, and only
/// that: a new publication takes any outcome of the serialisation, a sending
/// one any outcome of the send, a flushing one any outcome of the flush; a
/// finished one takes nothing; and no phase takes the outcome of another
/// phase's work.
pub proof fn law_publication_takes_each_outcome(
    serialized: Result<String, String>,
    sent: Result<(), String>,
    flushed: Result<(), String>,
    event: ProduceEvent,
)
    ensures
        produce_accepts(ProducePhase::Serializing, ProduceEvent::Serialized(serialized)),
        produce_accepts(ProducePhase::Sending, ProduceEvent::Sent(sent)),
        produce_accepts(ProducePhase::Flushing, ProduceEvent::Flushed(flushed)),
        !produce_accepts(ProducePhase::Done, event),
        produce_accepts(ProducePhase::Serializing, event) ==> event is Serialized,
        produce_accepts(ProducePhase::Sending, event) ==> event is Sent,
        produce_accepts(ProducePhase::Flushing, event) ==> event is Flushed,
{
}

} // verus!
