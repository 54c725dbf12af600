use vstd::prelude::*;
use vstd::hash_map::StringHashMap;
use vstd::string::*;
use std::sync::mpsc::{SendError, Sender};

verus! {

/// `std::sync::mpsc::Sender`, the sending end of an in-process channel: the
/// waiting caller holds the other end.
#[verifier::external_type_specification]
#[verifier::external_body]
#[verifier::reject_recursive_types(T)]
pub struct ExSender<T>(Sender<T>);

/// `std::sync::mpsc::SendError`, the error of a send on a channel whose
/// receiving end is gone.
#[verifier::external_type_specification]
#[verifier::external_body]
#[verifier::reject_recursive_types(T)]
pub struct ExSendError<T>(SendError<T>);

/// `std::sync::mpsc::Sender::send`: queues `message` for the receiving end of
/// the channel. It fails only where the receiving end has been dropped, which
/// depends on the receiver and not on the arguments, so nothing is promised of
/// which outcome comes back.
#[verifier::external_body]
fn channel_send<R>(sender: &Sender<R>, message: R) -> Result<(), SendError<R>> {
    sender.send(message)
}

/// The text that a send on a channel whose receiving end is gone is
/// answered with.
pub open spec fn closed_channel_text() -> Seq<char> {
    "sending on a closed channel"@
}

/// `ToString::to_string` on a `std::sync::mpsc::SendError`: its `Display`
/// impl writes the fixed text "sending on a closed channel", whatever message
/// the error gives back.
#[verifier::external_body]
fn send_error_text<R>(e: &SendError<R>) -> (text: String)
    ensures
        text@ == closed_channel_text(),
{
    e.to_string()
}

/// The text of the error that a send to an unknown correlation id gives.
pub open spec fn no_sender_text(correlation_id: Seq<char>) -> Seq<char> {
    "Aucun Sender trouvé pour l'ID '"@ + correlation_id + "'"@
}

/// Builds the text of `no_sender_text`.
fn no_sender_error(correlation_id: &str) -> (text: String)
    ensures
        text@ == no_sender_text(correlation_id@),
{
    let mut text = String::from_str("Aucun Sender trouvé pour l'ID '");
    text.append(correlation_id);
    text.append("'");
    text
}

/// A registry of the callers that wait for a reply, by correlation id.
pub trait CanSubscribe<R>: Sized {
    /// The correlation ids that a caller waits on.
    spec fn subscribed(&self) -> Set<Seq<char>>;

    /// Registers `sender` as the receiver of the reply to `correlation_id`.
    fn subscribe(&mut self, correlation_id: &str, sender: Sender<R>) -> (r: Result<(), String>)
        ensures
            r is Ok ==> final(self).subscribed() == old(self).subscribed().insert(correlation_id@),
            r is Err ==> final(self).subscribed() == old(self).subscribed(),
    ;

    /// Forgets the receiver of the reply to `correlation_id`.
    fn unsubscribe(&mut self, correlation_id: &str) -> (r: Result<(), String>)
        ensures
            r is Ok ==> final(self).subscribed() == old(self).subscribed().remove(correlation_id@),
            r is Err ==> final(self).subscribed() == old(self).subscribed(),
    ;

    /// Hands `message` to the receiver of the reply to `correlation_id`.
    fn send(&self, correlation_id: &str, message: &R) -> (r: Result<(), String>)
        ensures
            !self.subscribed().contains(correlation_id@) ==> (r matches Err(e) && e@
                == no_sender_text(correlation_id@)),
    ;
}

/// The registry of waiting callers: each correlation id is mapped to the
/// channel on which its reply is awaited.
#[verifier::reject_recursive_types(R)]
pub struct Subscriber<R> {
    datas: StringHashMap<Sender<R>>,
}

impl<R> View for Subscriber<R> {
    type V = Map<Seq<char>, Sender<R>>;

    closed spec fn view(&self) -> Map<Seq<char>, Sender<R>> {
        self.datas@
    }
}

impl<R> Subscriber<R> {
    /// A registry in which nobody waits.
    pub fn new() -> (s: Self)
        ensures
            s@ == Map::<Seq<char>, Sender<R>>::empty(),
    {
        Subscriber { datas: StringHashMap::new() }
    }

    /// The channel registered for `correlation_id`, if any.
    pub fn sender_for(&self, correlation_id: &str) -> (r: Option<&Sender<R>>)
        ensures
            match r {
                Some(s) => self@.contains_key(correlation_id@) && *s == self@[correlation_id@],
                None => !self@.contains_key(correlation_id@),
            },
    {
        self.datas.get(correlation_id)
    }

    /// Whether a caller waits on `correlation_id`.
    pub fn is_subscribed(&self, correlation_id: &str) -> (r: bool)
        ensures
            r == self@.contains_key(correlation_id@),
    {
        self.datas.contains_key(correlation_id)
    }

    /// The number of callers that wait.
    pub fn len(&self) -> (n: usize)
        ensures
            n == self@.len(),
    {
        proof {
            broadcast use vstd::hash_map::axiom_string_hash_map_spec_len;
        }
        self.datas.len()
    }
}

impl<R: Clone> CanSubscribe<R> for Subscriber<R> {
    open spec fn subscribed(&self) -> Set<Seq<char>> {
        self@.dom()
    }

    /// Registers `sender` for `correlation_id`, replacing any earlier one.
    fn subscribe(&mut self, correlation_id: &str, sender: Sender<R>) -> (r: Result<(), String>)
        ensures
            r is Ok,
            final(self)@ == old(self)@.insert(correlation_id@, sender),
    {
        let key = String::from_str(correlation_id);
        self.datas.insert(key, sender);
        Ok(())
    }

    /// Removes the registration of `correlation_id`, if there is one.
    fn unsubscribe(&mut self, correlation_id: &str) -> (r: Result<(), String>)
        ensures
            r is Ok,
            final(self)@ == old(self)@.remove(correlation_id@),
    {
        self.datas.remove(correlation_id);
        Ok(())
    }

    /// Sends a copy of `message` on the channel registered for
    /// `correlation_id`; a send that the channel refuses, its receiving end
    /// being gone, is answered with the channel error's text.
    fn send(&self, correlation_id: &str, message: &R) -> (r: Result<(), String>)
        ensures
            self@.contains_key(correlation_id@) ==> (r is Ok || (r matches Err(e) && e@
                == closed_channel_text())),
    {
        match self.sender_for(correlation_id) {
            Some(sender) => match channel_send(sender, message.clone()) {
                Ok(()) => Ok(()),
                Err(e) => Err(send_error_text(&e)),
            },
            None => Err(no_sender_error(correlation_id)),
        }
    }
}

/// A reply for a correlation id goes to the channel registered last under
/// that id: after `subscribe(id, sender)`, `sender_for(id)` gives `sender`.
pub proof fn law_reply_reaches_last_subscription<R>(
    registry: Map<Seq<char>, Sender<R>>,
    id: Seq<char>,
    sender: Sender<R>,
)
    ensures
        registry.insert(id, sender).contains_key(id),
        registry.insert(id, sender)[id] == sender,
{
}

/// Subscribing or unsubscribing one correlation id leaves the registration
/// of every other id as it was.
pub proof fn law_other_subscriptions_untouched<R>(
    registry: Map<Seq<char>, Sender<R>>,
    id: Seq<char>,
    other: Seq<char>,
    sender: Sender<R>,
)
    requires
        other != id,
    ensures
        registry.insert(id, sender).contains_key(other) == registry.contains_key(other),
        registry.remove(id).contains_key(other) == registry.contains_key(other),
        registry.contains_key(other) ==> registry.insert(id, sender)[other] == registry[other]
            && registry.remove(id)[other] == registry[other],
{
}

/// Once a correlation id is unsubscribed, a reply for it is refused with
/// the text of `no_sender_text`.
pub proof fn law_unsubscribed_id_is_refused<R>(registry: Map<Seq<char>, Sender<R>>, id: Seq<char>)
    ensures
        !registry.remove(id).contains_key(id),
{
}

/// Unsubscribing undoes subscribing: registering a channel under an id that
/// had none, then removing it, gives back the registry as it was.
pub proof fn law_unsubscribe_undoes_subscribe<R>(
    registry: Map<Seq<char>, Sender<R>>,
    id: Seq<char>,
    sender: Sender<R>,
)
    requires
        !registry.contains_key(id),
    ensures
        registry.insert(id, sender).remove(id) == registry,
{
    assert(registry.insert(id, sender).remove(id) =~= registry);
}

/// One call on a registry of waiting callers, as its effect on the view:
/// `subscribe(id, sender)` or `unsubscribe(id)`.
pub enum RegistryCall<V> {
    Subscribe(Seq<char>, V),
    Unsubscribe(Seq<char>),
}

/// The registry after `call`, as the contracts of `subscribe` and
/// `unsubscribe` state it.
pub open spec fn apply_call<V>(registry: Map<Seq<char>, V>, call: RegistryCall<V>) -> Map<
    Seq<char>,
    V,
> {
    match call {
        RegistryCall::Subscribe(id, sender) => registry.insert(id, sender),
        RegistryCall::Unsubscribe(id) => registry.remove(id),
    }
}

/// The registry after `calls`, made in order.
pub open spec fn apply_calls<V>(registry: Map<Seq<char>, V>, calls: Seq<RegistryCall<V>>) -> Map<
    Seq<char>,
    V,
>
    decreases calls.len(),
{
    if calls.len() == 0 {
        registry
    } else {
        apply_call(apply_calls(registry, calls.drop_last()), calls.last())
    }
}

/// Whether `call` names the correlation id `id`.
pub open spec fn names_id<V>(call: RegistryCall<V>, id: Seq<char>) -> bool {
    match call {
        RegistryCall::Subscribe(i, _) => i == id,
        RegistryCall::Unsubscribe(i) => i == id,
    }
}

/// The last of `calls` that names `id`, if any.
pub open spec fn last_call_naming<V>(calls: Seq<RegistryCall<V>>, id: Seq<char>) -> Option<
    RegistryCall<V>,
>
    decreases calls.len(),
{
    if calls.len() == 0 {
        None
    } else if names_id(calls.last(), id) {
        Some(calls.last())
    } else {
        last_call_naming(calls.drop_last(), id)
    }
}

/// After any sequence of subscribe and unsubscribe calls, a correlation id
/// is registered exactly when the last call that names it was a subscribe,
/// and then with the sender of that call; an id that no call names keeps the
/// registration it had. Since the view is a map, each id has at most one
/// sender.
pub proof fn law_registry_after_calls<V>(
    registry: Map<Seq<char>, V>,
    calls: Seq<RegistryCall<V>>,
    id: Seq<char>,
)
    ensures
        match last_call_naming(calls, id) {
            Some(RegistryCall::Subscribe(_, sender)) => apply_calls(registry, calls).contains_key(id)
                && apply_calls(registry, calls)[id] == sender,
            Some(RegistryCall::Unsubscribe(_)) => !apply_calls(registry, calls).contains_key(id),
            None => apply_calls(registry, calls).contains_key(id) == registry.contains_key(id) && (
            registry.contains_key(id) ==> apply_calls(registry, calls)[id] == registry[id]),
        },
    decreases calls.len(),
{
    if calls.len() > 0 {
        law_registry_after_calls(registry, calls.drop_last(), id);
    }
}

} // verus!
