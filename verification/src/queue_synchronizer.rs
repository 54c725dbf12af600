use vstd::prelude::*;
use vstd::string::*;

use crate::text::{copy_text, opt_string};

verus! {

/// How long a caller waits for its reply, in seconds.
pub const REPLY_TIMEOUT_SECS: u64 = 30;

/// What a caller asks for: the command goes to `topic`, under `key` where
/// there is one, and the reply is recognised by `correlation_id`.
pub struct WaitRequest {
    pub correlation_id: String,
    pub topic: String,
    pub key: Option<String>,
}

/// A `WaitRequest` with its texts as sequences of characters.
pub struct RequestView {
    pub correlation_id: Seq<char>,
    pub topic: Seq<char>,
    pub key: Option<Seq<char>>,
}

/// The view of an outcome whose error is a text.
pub open spec fn outcome_view<T>(r: Result<T, String>) -> Result<T, Seq<char>> {
    match r {
        Ok(v) => Ok(v),
        Err(e) => Err(e@),
    }
}

impl View for WaitRequest {
    type V = RequestView;

    open spec fn view(&self) -> RequestView {
        RequestView {
            correlation_id: self.correlation_id@,
            topic: self.topic@,
            key: opt_string(self.key),
        }
    }
}

/// Where a wait for a reply stands.
pub enum WaitPhase<R> {
    /// The caller's channel is being registered.
    Subscribing,
    /// The command is being published.
    Producing,
    /// The reply is awaited.
    Receiving,
    /// The reply came; the registration is being removed.
    Unsubscribing(R),
    /// The outcome has been handed back.
    Done,
}

/// What the outside work of the last action gave.
pub enum WaitEvent<R> {
    Subscribed(Result<(), String>),
    Produced(Result<(), String>),
    /// The reply, or the text of the channel's error (time out, or no sender left).
    Received(Result<R, String>),
    Unsubscribed(Result<(), String>),
}

/// A `WaitEvent` with its texts as sequences of characters.
pub enum EventView<R> {
    Subscribed(Result<(), Seq<char>>),
    Produced(Result<(), Seq<char>>),
    Received(Result<R, Seq<char>>),
    Unsubscribed(Result<(), Seq<char>>),
}

impl<R> View for WaitEvent<R> {
    type V = EventView<R>;

    open spec fn view(&self) -> EventView<R> {
        match self {
            WaitEvent::Subscribed(r) => EventView::Subscribed(outcome_view(*r)),
            WaitEvent::Produced(r) => EventView::Produced(outcome_view(*r)),
            WaitEvent::Received(r) => EventView::Received(outcome_view(*r)),
            WaitEvent::Unsubscribed(r) => EventView::Unsubscribed(outcome_view(*r)),
        }
    }
}

/// The outside work to do next, or the outcome to hand back.
pub enum WaitAction<R> {
    /// Register a fresh channel for `correlation_id`.
    Subscribe { correlation_id: String },
    /// Publish the command on `topic`, under `key` where there is one.
    Produce { topic: String, key: Option<String> },
    /// Wait on the channel for at most `timeout_secs` seconds.
    AwaitReply { timeout_secs: u64 },
    /// Remove the registration of `correlation_id`.
    Unsubscribe { correlation_id: String },
    /// Hand this outcome back to the caller.
    Finish(Result<R, String>),
}

/// A `WaitAction` with its texts as sequences of characters.
pub enum ActionView<R> {
    Subscribe(Seq<char>),
    Produce(Seq<char>, Option<Seq<char>>),
    AwaitReply(u64),
    Unsubscribe(Seq<char>),
    Finish(Result<R, Seq<char>>),
}

impl<R> View for WaitAction<R> {
    type V = ActionView<R>;

    open spec fn view(&self) -> ActionView<R> {
        match self {
            WaitAction::Subscribe { correlation_id } => ActionView::Subscribe(correlation_id@),
            WaitAction::Produce { topic, key } => ActionView::Produce(topic@, opt_string(*key)),
            WaitAction::AwaitReply { timeout_secs } => ActionView::AwaitReply(*timeout_secs),
            WaitAction::Unsubscribe { correlation_id } => ActionView::Unsubscribe(correlation_id@),
            WaitAction::Finish(r) => ActionView::Finish(outcome_view(*r)),
        }
    }
}

/// The text of the error that a failed wait for the reply is answered with.
pub open spec fn reply_error_text(channel_error: Seq<char>) -> Seq<char> {
    "Erreur lors de l'envoi: "@ + channel_error
}

/// Whether `event` is the outcome of the work that `phase` waits for.
pub open spec fn phase_accepts<R>(phase: WaitPhase<R>, event: EventView<R>) -> bool {
    match phase {
        WaitPhase::Subscribing => event is Subscribed,
        WaitPhase::Producing => event is Produced,
        WaitPhase::Receiving => event is Received,
        WaitPhase::Unsubscribing(_) => event is Unsubscribed,
        WaitPhase::Done => false,
    }
}

/// The phase after `event`, and what to do next: subscribe, then publish,
/// then wait for the reply, then unsubscribe and hand the reply back. The
/// first failure is handed back at once, and nothing more is done.
pub open spec fn wait_next<R>(request: RequestView, phase: WaitPhase<R>, event: EventView<R>) -> (
    WaitPhase<R>,
    ActionView<R>,
) {
    match event {
        EventView::Subscribed(Ok(())) => (
            WaitPhase::Producing,
            ActionView::Produce(request.topic, request.key),
        ),
        EventView::Produced(Ok(())) => (
            WaitPhase::Receiving,
            ActionView::AwaitReply(REPLY_TIMEOUT_SECS),
        ),
        EventView::Received(Ok(reply)) => (
            WaitPhase::Unsubscribing(reply),
            ActionView::Unsubscribe(request.correlation_id),
        ),
        EventView::Received(Err(e)) => (
            WaitPhase::Done,
            ActionView::Finish(Err(reply_error_text(e))),
        ),
        EventView::Unsubscribed(Ok(())) => (
            WaitPhase::Done,
            ActionView::Finish(
                match phase {
                    WaitPhase::Unsubscribing(reply) => Ok(reply),
                    _ => Err(Seq::empty()),
                },
            ),
        ),
        EventView::Subscribed(Err(e)) => (WaitPhase::Done, ActionView::Finish(Err(e))),
        EventView::Produced(Err(e)) => (WaitPhase::Done, ActionView::Finish(Err(e))),
        EventView::Unsubscribed(Err(e)) => (WaitPhase::Done, ActionView::Finish(Err(e))),
    }
}

/// The phases and the actions that a sequence of outcomes leads through,
/// starting in `phase`.
pub open spec fn wait_run<R>(request: RequestView, phase: WaitPhase<R>, events: Seq<EventView<R>>) -> (
    WaitPhase<R>,
    Seq<ActionView<R>>,
)
    decreases events.len(),
{
    if events.len() == 0 {
        (phase, Seq::empty())
    } else {
        let (next_phase, action) = wait_next(request, phase, events[0]);
        let (last_phase, actions) = wait_run(request, next_phase, events.drop_first());
        (last_phase, seq![action] + actions)
    }
}

/// Whether each outcome in `events`, starting in `phase`, is the outcome of
/// the work that the wait stands on at that point.
pub open spec fn wait_accepts_all<R>(
    request: RequestView,
    phase: WaitPhase<R>,
    events: Seq<EventView<R>>,
) -> bool
    decreases events.len(),
{
    events.len() == 0 || (phase_accepts(phase, events[0]) && wait_accepts_all(
        request,
        wait_next(request, phase, events[0]).0,
        events.drop_first(),
    ))
}

/// A wait that has handed back its outcome takes no further outcome.
pub proof fn law_done_is_final<R>(event: EventView<R>)
    ensures
        !phase_accepts(WaitPhase::<R>::Done, event),
{
}

/// A wait for a reply takes in at most four outcomes, and it has handed
/// back its outcome exactly when it is done.
pub proof fn law_wait_is_bounded<R>(request: RequestView, events: Seq<EventView<R>>)
    requires
        wait_accepts_all(request, WaitPhase::Subscribing, events),
    ensures
        events.len() <= 4,
        events.len() > 0 ==> (wait_run(request, WaitPhase::Subscribing, events).0 is Done
            <==> wait_run(request, WaitPhase::Subscribing, events).1.last() is Finish),
{
    reveal_with_fuel(wait_run, 5);
    reveal_with_fuel(wait_accepts_all, 5);
    assert(events.len() <= 4) by {
        if events.len() > 4 {
            let e1 = events.drop_first();
            let e2 = e1.drop_first();
            let e3 = e2.drop_first();
            let e4 = e3.drop_first();
            assert(e4.len() > 0);
        }
    }
    if events.len() > 0 {
        let e1 = events.drop_first();
        let e2 = e1.drop_first();
        let e3 = e2.drop_first();
        let e4 = e3.drop_first();
        assert(e4.len() == 0 || e3.len() == 0 || e2.len() == 0 || e1.len() == 0);
    }
}

/// A wait hands back a reply only after the caller's channel was
/// registered, the command was published, that reply was received, and the
/// registration was removed, in this order; the work it asked for on the way
/// was to publish on the requested topic under the requested key, to wait for
/// the reply for the set time, and to unsubscribe the request's correlation id.
pub proof fn law_reply_only_after_full_exchange<R>(
    request: RequestView,
    events: Seq<EventView<R>>,
    reply: R,
)
    requires
        wait_accepts_all(request, WaitPhase::Subscribing, events),
        events.len() > 0,
        wait_run(request, WaitPhase::Subscribing, events).1.last() == ActionView::<R>::Finish(
            Ok(reply),
        ),
    ensures
        events == seq![
            EventView::<R>::Subscribed(Ok(())),
            EventView::<R>::Produced(Ok(())),
            EventView::<R>::Received(Ok(reply)),
            EventView::<R>::Unsubscribed(Ok(())),
        ],
        wait_run(request, WaitPhase::Subscribing, events).1 == seq![
            ActionView::<R>::Produce(request.topic, request.key),
            ActionView::<R>::AwaitReply(REPLY_TIMEOUT_SECS),
            ActionView::<R>::Unsubscribe(request.correlation_id),
            ActionView::<R>::Finish(Ok(reply)),
        ],
{
    law_wait_is_bounded(request, events);
    reveal_with_fuel(wait_run, 5);
    reveal_with_fuel(wait_accepts_all, 5);
    let e1 = events.drop_first();
    let e2 = e1.drop_first();
    let e3 = e2.drop_first();
    assert(events.len() == 4) by {
        if events.len() < 4 {
        }
    }
    let p1 = wait_next(request, WaitPhase::<R>::Subscribing, events[0]).0;
    let p2 = wait_next(request, p1, e1[0]).0;
    let p3 = wait_next(request, p2, e2[0]).0;
    assert(wait_accepts_all(request, p1, e1));
    assert(phase_accepts(p1, e1[0]));
    assert(wait_accepts_all(request, p2, e2));
    assert(phase_accepts(p2, e2[0]));
    assert(p1 is Producing);
    assert(p2 is Receiving);
    assert(events[0] matches EventView::Subscribed(Ok(u)) && u == ());
    assert(events[0] == EventView::<R>::Subscribed(Ok(())));
    assert(e1[0] matches EventView::Produced(Ok(u)) && u == ());
    assert(e1[0] == EventView::<R>::Produced(Ok(())));
    assert(e2[0] == EventView::<R>::Received(Ok(reply)));
    assert(wait_accepts_all(request, p3, e3));
    assert(phase_accepts(p3, e3[0]));
    assert(e3[0] matches EventView::Unsubscribed(Ok(u)) && u == ());
    assert(e3[0] == EventView::<R>::Unsubscribed(Ok(())));
    assert(events =~= seq![events[0], e1[0], e2[0], e3[0]]);
}

/// A wait that fails hands back the text of the first failure: that of the
/// registration, the publication or the unsubscription as it came, or that
/// of the reply channel behind a fixed prefix.
pub proof fn law_failure_is_handed_back<R>(
    request: RequestView,
    events: Seq<EventView<R>>,
    text: Seq<char>,
)
    requires
        wait_accepts_all(request, WaitPhase::Subscribing, events),
        events.len() > 0,
        wait_run(request, WaitPhase::Subscribing, events).1.last() == ActionView::<R>::Finish(
            Err(text),
        ),
    ensures
        events.last() == EventView::<R>::Subscribed(Err(text)) || events.last()
            == EventView::<R>::Produced(Err(text)) || events.last() == EventView::<R>::Unsubscribed(
            Err(text),
        ) || exists|channel_error: Seq<char>|
            events.last() == EventView::<R>::Received(Err(channel_error)) && text
                == reply_error_text(channel_error),
        forall|i: int|
            0 <= i < events.len() - 1 ==> !(#[trigger] events[i] matches EventView::Subscribed(Err(_))
                || events[i] matches EventView::Produced(Err(_)) || events[i] matches EventView::Received(
                Err(_),
            ) || events[i] matches EventView::Unsubscribed(Err(_))),
{
    law_wait_is_bounded(request, events);
    reveal_with_fuel(wait_run, 5);
    reveal_with_fuel(wait_accepts_all, 5);
    let e1 = events.drop_first();
    let e2 = e1.drop_first();
    let e3 = e2.drop_first();
    if events.len() == 1 {
    } else if events.len() == 2 {
        assert(events =~= seq![events[0], e1[0]]);
    } else if events.len() == 3 {
        assert(events =~= seq![events[0], e1[0], e2[0]]);
    } else {
        assert(events =~= seq![events[0], e1[0], e2[0], e3[0]]);
    }
}

/// What the registration work among `actions` does to a registry of waiting
/// callers, where each registration is of `sender`.
pub open spec fn registry_effect<V, R>(
    registry: Map<Seq<char>, V>,
    actions: Seq<ActionView<R>>,
    sender: V,
) -> Map<Seq<char>, V>
    decreases actions.len(),
{
    if actions.len() == 0 {
        registry
    } else {
        let next = match actions[0] {
            ActionView::Subscribe(id) => registry.insert(id, sender),
            ActionView::Unsubscribe(id) => registry.remove(id),
            _ => registry,
        };
        registry_effect(next, actions.drop_first(), sender)
    }
}

/// A wait that hands back a reply leaves the registry of waiting callers as
/// it found it but for the request's correlation id, which is no longer
/// registered; where nobody waited on that id before, the registry is just as
/// it was.
pub proof fn law_successful_wait_leaves_registry_unchanged<V, R>(
    registry: Map<Seq<char>, V>,
    request: RequestView,
    events: Seq<EventView<R>>,
    reply: R,
    sender: V,
)
    requires
        wait_accepts_all(request, WaitPhase::Subscribing, events),
        events.len() > 0,
        wait_run(request, WaitPhase::Subscribing, events).1.last() == ActionView::<R>::Finish(
            Ok(reply),
        ),
    ensures
        registry_effect(
            registry,
            seq![ActionView::<R>::Subscribe(request.correlation_id)] + wait_run(
                request,
                WaitPhase::Subscribing,
                events,
            ).1,
            sender,
        ) == registry.remove(request.correlation_id),
        !registry.contains_key(request.correlation_id) ==> registry_effect(
            registry,
            seq![ActionView::<R>::Subscribe(request.correlation_id)] + wait_run(
                request,
                WaitPhase::Subscribing,
                events,
            ).1,
            sender,
        ) == registry,
{
    law_reply_only_after_full_exchange(request, events, reply);
    let actions = seq![ActionView::<R>::Subscribe(request.correlation_id)] + wait_run(
        request,
        WaitPhase::Subscribing,
        events,
    ).1;
    let subscribed = registry.insert(request.correlation_id, sender);
    reveal_with_fuel(registry_effect, 6);
    assert(actions.drop_first().drop_first().drop_first() =~= seq![
        ActionView::<R>::Unsubscribe(request.correlation_id),
        ActionView::<R>::Finish(Ok(reply)),
    ]);
    assert(subscribed.remove(request.correlation_id) =~= registry.remove(request.correlation_id));
    if !registry.contains_key(request.correlation_id) {
        assert(registry.remove(request.correlation_id) =~= registry);
    }
}

/// Every reply can come back: the wait takes in the outcomes of a
/// registration, a publication, the reply and an unsubscription that all
/// succeed, and then hands that reply back; and it takes any outcome, success
/// or failure, of the work it stands on.
pub proof fn law_full_exchange_is_taken<R>(
    request: RequestView,
    reply: R,
    subscribed: Result<(), Seq<char>>,
    produced: Result<(), Seq<char>>,
    received: Result<R, Seq<char>>,
    unsubscribed: Result<(), Seq<char>>,
)
    ensures
        wait_accepts_all(
            request,
            WaitPhase::Subscribing,
            seq![
                EventView::<R>::Subscribed(Ok(())),
                EventView::<R>::Produced(Ok(())),
                EventView::<R>::Received(Ok(reply)),
                EventView::<R>::Unsubscribed(Ok(())),
            ],
        ),
        wait_run(
            request,
            WaitPhase::Subscribing,
            seq![
                EventView::<R>::Subscribed(Ok(())),
                EventView::<R>::Produced(Ok(())),
                EventView::<R>::Received(Ok(reply)),
                EventView::<R>::Unsubscribed(Ok(())),
            ],
        ).1.last() == ActionView::<R>::Finish(Ok(reply)),
        phase_accepts(WaitPhase::<R>::Subscribing, EventView::Subscribed(subscribed)),
        phase_accepts(WaitPhase::<R>::Producing, EventView::Produced(produced)),
        phase_accepts(WaitPhase::<R>::Receiving, EventView::Received(received)),
        phase_accepts(WaitPhase::<R>::Unsubscribing(reply), EventView::Unsubscribed(unsubscribed)),
{
    let events = seq![
        EventView::<R>::Subscribed(Ok(())),
        EventView::<R>::Produced(Ok(())),
        EventView::<R>::Received(Ok(reply)),
        EventView::<R>::Unsubscribed(Ok(())),
    ];
    reveal_with_fuel(wait_run, 5);
    reveal_with_fuel(wait_accepts_all, 5);
    let e1 = events.drop_first();
    let e2 = e1.drop_first();
    let e3 = e2.drop_first();
    assert(e1 =~= seq![EventView::<R>::Produced(Ok(())), EventView::<R>::Received(Ok(reply)), EventView::<R>::Unsubscribed(Ok(()))]);
    assert(e2 =~= seq![EventView::<R>::Received(Ok(reply)), EventView::<R>::Unsubscribed(Ok(()))]);
    assert(e3 =~= seq![EventView::<R>::Unsubscribed(Ok(()))]);
    assert(e3.drop_first() =~= Seq::<EventView<R>>::empty());
}

/// The wait of one caller for the reply to its command.
pub struct ResultWaiter<R> {
    pub request: WaitRequest,
    pub phase: WaitPhase<R>,
}

fn reply_error(channel_error: String) -> (text: String)
    ensures
        text@ == reply_error_text(channel_error@),
{
    let mut text = String::from_str("Erreur lors de l'envoi: ");
    text.append(channel_error.as_str());
    text
}

impl<R> ResultWaiter<R> {
    /// Starts the wait for the reply to `request`: the first work is to
    /// register the caller's channel under the request's correlation id.
    pub fn begin(request: WaitRequest) -> (r: (ResultWaiter<R>, WaitAction<R>))
        ensures
            r.0.request == request,
            r.0.phase == WaitPhase::<R>::Subscribing,
            r.1@ == ActionView::<R>::Subscribe(request.correlation_id@),
    {
        let correlation_id = request.correlation_id.clone();
        (ResultWaiter { request, phase: WaitPhase::Subscribing }, WaitAction::Subscribe { correlation_id })
    }

    /// Whether `event` is the outcome of the work that the wait stands on.
    pub fn accepts(&self, event: &WaitEvent<R>) -> (b: bool)
        ensures
            b == phase_accepts(self.phase, event@),
            b <==> (self.phase is Subscribing && *event is Subscribed) || (self.phase is Producing
                && *event is Produced) || (self.phase is Receiving && *event is Received) || (
            self.phase is Unsubscribing && *event is Unsubscribed),
    {
        match (&self.phase, event) {
            (WaitPhase::Subscribing, WaitEvent::Subscribed(_)) => true,
            (WaitPhase::Producing, WaitEvent::Produced(_)) => true,
            (WaitPhase::Receiving, WaitEvent::Received(_)) => true,
            (WaitPhase::Unsubscribing(_), WaitEvent::Unsubscribed(_)) => true,
            _ => false,
        }
    }

    /// Takes in the outcome of the last work and says what to do next.
    pub fn step(self, event: WaitEvent<R>) -> (r: (ResultWaiter<R>, WaitAction<R>))
        requires
            phase_accepts(self.phase, event@),
        ensures
            r.0.request == self.request,
            (r.0.phase, r.1@) == wait_next(self.request@, self.phase, event@),
    {
        let ResultWaiter { request, phase } = self;
        match event {
            WaitEvent::Subscribed(Ok(())) => {
                let action = WaitAction::Produce { topic: request.topic.clone(), key: copy_text(&request.key) };
                (ResultWaiter { request, phase: WaitPhase::Producing }, action)
            },
            WaitEvent::Produced(Ok(())) => (
                ResultWaiter { request, phase: WaitPhase::Receiving },
                WaitAction::AwaitReply { timeout_secs: REPLY_TIMEOUT_SECS },
            ),
            WaitEvent::Received(Ok(reply)) => {
                let correlation_id = request.correlation_id.clone();
                (
                    ResultWaiter { request, phase: WaitPhase::Unsubscribing(reply) },
                    WaitAction::Unsubscribe { correlation_id },
                )
            },
            WaitEvent::Received(Err(e)) => (
                ResultWaiter { request, phase: WaitPhase::Done },
                WaitAction::Finish(Err(reply_error(e))),
            ),
            WaitEvent::Unsubscribed(Ok(())) => {
                match phase {
                    WaitPhase::Unsubscribing(reply) => (
                        ResultWaiter { request, phase: WaitPhase::Done },
                        WaitAction::Finish(Ok(reply)),
                    ),
                    _ => {
                        proof {
                            assert(false);
                        }
                        (ResultWaiter { request, phase: WaitPhase::Done }, WaitAction::Finish(Err(String::new())))
                    },
                }
            },
            WaitEvent::Subscribed(Err(e)) => (
                ResultWaiter { request, phase: WaitPhase::Done },
                WaitAction::Finish(Err(e)),
            ),
            WaitEvent::Produced(Err(e)) => (
                ResultWaiter { request, phase: WaitPhase::Done },
                WaitAction::Finish(Err(e)),
            ),
            WaitEvent::Unsubscribed(Err(e)) => (
                ResultWaiter { request, phase: WaitPhase::Done },
                WaitAction::Finish(Err(e)),
            ),
        }
    }
}

} // verus!
