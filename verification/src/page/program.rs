//! The update loop of one page instance.

use crate::browser::effect::lemma_leaves_are_not_batches;
use crate::browser::effect::Effect;
use crate::browser::matching::fired;
use crate::browser::matching::fired_listeners;
use crate::browser::matching::RawEvent;
use crate::browser::queue::enqueued;
use crate::browser::queue::MsgQueue;
use crate::browser::queue_strategy::QueueStrategy;
use crate::browser::subscription::diff::diff;
use crate::browser::subscription::diff::ids_of;
use crate::browser::subscription::diff::missing_from;
use crate::browser::subscription::diff::source_ids;
use crate::browser::subscription::diff::texts;
use crate::browser::subscription::diff::Changes;
use crate::browser::subscription::event_listener::EventListener;
use crate::browser::subscription::Subscription;
use crate::failure::Failure;
use crate::page::get_subscriptions;
use crate::page::hand_over;
use crate::page::init;
use crate::page::may_init;
use crate::page::may_subscribe;
use crate::page::JsMsg;
use crate::page::ModelAndEffects;
use crate::page::Page;
use vstd::prelude::*;

verus! {

/// A page instance that has been started: its model, the occurrences that wait
/// to be delivered to it, and the ids of the sources that the host keeps alive
/// for it. One call works on it at a time, and the model changes in `update`
/// and `update_from_js` only.
pub struct Program<Model, Msg> {
    model: Model,
    queue: MsgQueue<Msg>,
    running: Vec<String>,
}

/// What an outcome of the page makes of the model and what the host is told.
/// Where the page agreed, the model is the copy that the page worked on, and the
/// host gets the effects, flattened. Where it refused, the model is what it was,
/// and the host gets the refusal.
pub open spec fn settled<Model, Msg>(
    before: Model,
    after: Model,
    r: Result<Vec<Effect<Msg>>, Failure>,
    worked_on: Model,
    outcome: Result<Effect<Msg>, String>,
) -> bool {
    match outcome {
        Ok(effect) => r matches Ok(effects) && effects@ == effect.flatten() && after == worked_on,
        Err(reason) => (r matches Err(Failure::Update { reason: given }) && given == reason)
            && after == before,
    }
}

/// What holds after every call of an update, whatever the page did: a failure is
/// the page's refusal and has left the model as it was, and effects are leaves.
pub open spec fn atomic<Model, Msg>(
    before: Model,
    after: Model,
    r: Result<Vec<Effect<Msg>>, Failure>,
) -> bool {
    match r {
        Ok(effects) => forall|i: int| 0 <= i < effects.len() ==> !(#[trigger] effects[i] is Batch),
        Err(failure) => failure is Update && after == before,
    }
}

/// A failed update cannot be observed: the model is after the call what it was
/// before, and so is what the page may subscribe to for it.
pub proof fn lemma_failure_is_unobservable<P, Model, Msg, Markup>(
    page: &P,
    before: Model,
    after: Model,
    r: Result<Vec<Effect<Msg>>, Failure>,
) where P: Page<Model, Msg, Markup>
    requires
        atomic(before, after, r),
        r is Err,
    ensures
        after == before,
        forall|subscription: Subscription<Msg>|
            may_subscribe(page, after, subscription) <==> may_subscribe(
                page,
                before,
                subscription,
            ),
{
}

/// Where what the page subscribes to is a function of the model, a failed
/// update changes no subscription: what the page subscribes to after the call
/// is what it subscribed to before, leaf by leaf.
pub proof fn lemma_failed_update_keeps_subscriptions<P, Model, Msg, Markup>(
    page: &P,
    before: Model,
    after: Model,
    r: Result<Vec<Effect<Msg>>, Failure>,
    earlier: Subscription<Msg>,
    later: Subscription<Msg>,
) where P: Page<Model, Msg, Markup>
    requires
        forall|model: Model, one: Subscription<Msg>, other: Subscription<Msg>|
            #[trigger] may_subscribe(page, model, one) && #[trigger] may_subscribe(
                page,
                model,
                other,
            ) ==> one == other,
        atomic(before, after, r),
        r is Err,
        may_subscribe(page, before, earlier),
        may_subscribe(page, after, later),
    ensures
        later == earlier,
        later.flatten() == earlier.flatten(),
{
}

impl<Model: Clone, Msg> Program<Model, Msg> {
    /// The model as it stands.
    pub closed spec fn model(&self) -> Model {
        self.model
    }

    /// The occurrences that wait, oldest first, each with the id of its source.
    pub closed spec fn pending(&self) -> Seq<(Seq<char>, Msg)> {
        self.queue@
    }

    /// The ids of the sources that the host keeps alive, as of the last `reconcile`.
    pub closed spec fn running(&self) -> Seq<Seq<char>> {
        texts(self.running@)
    }

    /// The program that starts from what `init` handed over, with nothing waiting.
    pub fn new(model: Model) -> (program: Self)
        ensures
            program.model() == model,
            program.pending() == Seq::<(Seq<char>, Msg)>::empty(),
            program.running() == Seq::<Seq<char>>::empty(),
    {
        let program = Program { model, queue: MsgQueue::new(), running: Vec::new() };
        assert(program.running() =~= Seq::empty());
        program
    }

    /// Starts the page. Where the page refuses to start there is no program.
    pub fn start<P: Page<Model, Msg, Markup>, Markup>(page: &P) -> (r: Result<
        (Self, Vec<Effect<Msg>>),
        Failure,
    >)
        ensures
            exists|outcome: Result<(Model, Effect<Msg>), String>| #[trigger]
                may_init(page, outcome) && match outcome {
                    Ok((model, effect)) => r matches Ok((program, effects)) && program.model()
                        == model && program.pending() == Seq::<(Seq<char>, Msg)>::empty()
                        && program.running() == Seq::<Seq<char>>::empty() && effects@
                        == effect.flatten(),
                    Err(reason) => r matches Err(Failure::Update { reason: given }) && given
                        == reason,
                },
    {
        match init(page) {
            Ok(both) => Ok((Program::new(both.model), both.effects)),
            Err(failure) => Err(failure),
        }
    }

    /// The model as it stands.
    pub fn current_model(&self) -> (model: &Model)
        ensures
            *model == self.model(),
    {
        &self.model
    }

    /// The number of occurrences that wait.
    pub fn pending_len(&self) -> (n: usize)
        ensures
            n == self.pending().len(),
    {
        self.queue.len()
    }

    /// The event sources that the page wants alive now, leaf by leaf in the order
    /// of registration.
    pub fn subscriptions<P: Page<Model, Msg, Markup>, Markup>(&self, page: &P) -> (subscriptions:
        Vec<Subscription<Msg>>)
        ensures
            exists|subscription: Subscription<Msg>| #[trigger]
                may_subscribe(page, self.model(), subscription) && subscriptions@
                    == subscription.flatten(),
    {
        let subscriptions = get_subscriptions(page, &self.model);
        proof {
            let subscription = choose|subscription: Subscription<Msg>| #[trigger]
                may_subscribe(page, self.model, subscription) && subscriptions@
                    == subscription.flatten();
            assert(may_subscribe(page, self.model(), subscription));
        }
        subscriptions
    }

    /// The listeners that fire for `event` now, in the order of registration, each
    /// with what it delivers: `fired_listeners` of the page's subscriptions.
    pub fn listeners_for<P: Page<Model, Msg, Markup>, Markup>(
        &self,
        page: &P,
        event: &RawEvent,
    ) -> (listeners: Vec<EventListener<Msg>>)
        ensures
            exists|subscription: Subscription<Msg>| #[trigger]
                may_subscribe(page, self.model(), subscription) && listeners@ == fired(
                    subscription.flatten(),
                    event@,
                    subscription.flatten().len() as int,
                ),
    {
        let subscriptions = get_subscriptions(page, &self.model);
        proof {
            let subscription = choose|subscription: Subscription<Msg>| #[trigger]
                may_subscribe(page, self.model, subscription) && subscriptions@
                    == subscription.flatten();
            assert(may_subscribe(page, self.model(), subscription));
        }
        fired_listeners(subscriptions, event)
    }

    /// Brings the sources that the host keeps alive in line with what the page
    /// subscribes to now. A source stays alive only while the page names it: the
    /// ids that the page names and that do not run are to be installed, the ids
    /// that run and that the page names no longer are to be torn down, and what
    /// is in both is left running.
    pub fn reconcile<P: Page<Model, Msg, Markup>, Markup>(&mut self, page: &P) -> (changes:
        Changes)
        ensures
            final(self).model() == old(self).model(),
            final(self).pending() == old(self).pending(),
            exists|subscription: Subscription<Msg>| #[trigger]
                may_subscribe(page, old(self).model(), subscription) && {
                    let wanted = ids_of(
                        subscription.flatten(),
                        subscription.flatten().len() as int,
                    );
                    &&& final(self).running() == wanted
                    &&& texts(changes.install@) == missing_from(
                        wanted,
                        old(self).running(),
                        wanted.len() as int,
                    )
                    &&& texts(changes.tear_down@) == missing_from(
                        old(self).running(),
                        wanted,
                        old(self).running().len() as int,
                    )
                },
    {
        let subscriptions = get_subscriptions(page, &self.model);
        proof {
            let subscription = choose|subscription: Subscription<Msg>| #[trigger]
                may_subscribe(page, self.model, subscription) && subscriptions@
                    == subscription.flatten();
            assert(may_subscribe(page, self.model(), subscription));
        }
        let wanted = source_ids(&subscriptions);
        let changes = diff(&self.running, &wanted);
        self.running = wanted;
        changes
    }

    /// Takes in an occurrence of the source `id`, whose strategy is `strategy`. The
    /// model stays as it is until the occurrence is delivered.
    pub fn enqueue(&mut self, id: &str, strategy: QueueStrategy, msg: Msg)
        ensures
            final(self).pending() == enqueued(old(self).pending(), id@, strategy, msg),
            final(self).model() == old(self).model(),
            final(self).running() == old(self).running(),
    {
        self.queue.enqueue(id, strategy, msg);
    }

    /// Settles an outcome of the page, which has worked on the copy `worked_on` of
    /// the model: the copy takes the model's place only if the page agreed.
    pub fn commit(&mut self, worked_on: Model, outcome: Result<Effect<Msg>, String>) -> (r: Result<
        Vec<Effect<Msg>>,
        Failure,
    >)
        ensures
            settled(old(self).model(), final(self).model(), r, worked_on, outcome),
            atomic(old(self).model(), final(self).model(), r),
            final(self).pending() == old(self).pending(),
            final(self).running() == old(self).running(),
    {
        proof {
            if outcome is Ok {
                lemma_leaves_are_not_batches(outcome->Ok_0);
            }
        }
        match hand_over(worked_on, outcome) {
            Ok(both) => {
                let ModelAndEffects { model, effects } = both;
                self.model = model;
                Ok(effects)
            },
            Err(failure) => Err(failure),
        }
    }

    /// Lets the page take in `msg`. The page works on a copy of the model, and the
    /// outcome is settled as `commit` has it: where the page refuses, the model
    /// stays as it was.
    pub fn update<P: Page<Model, Msg, Markup>, Markup>(&mut self, page: &P, msg: &Msg) -> (r:
        Result<Vec<Effect<Msg>>, Failure>)
        ensures
            atomic(old(self).model(), final(self).model(), r),
            final(self).pending() == old(self).pending(),
            final(self).running() == old(self).running(),
            exists|worked_on: &mut Model, outcome: Result<Effect<Msg>, String>|
                cloned(old(self).model(), *worked_on) && #[trigger] call_ensures(
                    P::update,
                    (page, msg, worked_on),
                    outcome,
                ) && settled(
                    old(self).model(),
                    final(self).model(),
                    r,
                    *final(worked_on),
                    outcome,
                ),
    {
        let mut copy = self.model.clone();
        let outcome = page.update(msg, &mut copy);
        self.commit(copy, outcome)
    }

    /// Lets the page take in a message that the host made up itself, under the
    /// same rules as `update`.
    pub fn update_from_js<P: Page<Model, Msg, Markup>, Markup>(&mut self, page: &P, msg: JsMsg) -> (r:
        Result<Vec<Effect<Msg>>, Failure>)
        ensures
            atomic(old(self).model(), final(self).model(), r),
            final(self).pending() == old(self).pending(),
            final(self).running() == old(self).running(),
            exists|worked_on: &mut Model, outcome: Result<Effect<Msg>, String>|
                cloned(old(self).model(), *worked_on) && #[trigger] call_ensures(
                    P::update_from_js,
                    (page, msg, worked_on),
                    outcome,
                ) && settled(
                    old(self).model(),
                    final(self).model(),
                    r,
                    *final(worked_on),
                    outcome,
                ),
    {
        let mut copy = self.model.clone();
        let outcome = page.update_from_js(msg, &mut copy);
        self.commit(copy, outcome)
    }

    /// Delivers the occurrence that has waited longest: takes it out of the queue
    /// and lets the page take in its message, as `update` does. Returns `None`
    /// when nothing waits.
    pub fn deliver_next<P: Page<Model, Msg, Markup>, Markup>(&mut self, page: &P) -> (r: Option<
        Result<Vec<Effect<Msg>>, Failure>,
    >)
        ensures
            final(self).running() == old(self).running(),
            old(self).pending().len() == 0 ==> r is None && final(self).pending() == old(
                self,
            ).pending() && final(self).model() == old(self).model(),
            old(self).pending().len() > 0 ==> r is Some && final(self).pending() == old(
                self,
            ).pending().drop_first() && atomic(
                old(self).model(),
                final(self).model(),
                r->Some_0,
            ) && (exists|worked_on: &mut Model, outcome: Result<Effect<Msg>, String>|
                cloned(old(self).model(), *worked_on) && #[trigger] call_ensures(
                    P::update,
                    (page, &old(self).pending()[0].1, worked_on),
                    outcome,
                ) && settled(
                    old(self).model(),
                    final(self).model(),
                    r->Some_0,
                    *final(worked_on),
                    outcome,
                )),
    {
        match self.queue.dequeue() {
            None => None,
            Some(occurrence) => {
                let ghost first = old(self).pending()[0].1;
                assert(occurrence.msg == first);
                let r = self.update(page, &occurrence.msg);
                proof {
                    let (worked_on, outcome) = choose|
                        worked_on: &mut Model,
                        outcome: Result<Effect<Msg>, String>,
                    |
                        cloned(old(self).model(), *worked_on) && #[trigger] call_ensures(
                            P::update,
                            (page, &first, worked_on),
                            outcome,
                        ) && settled(
                            old(self).model(),
                            self.model(),
                            r,
                            *final(worked_on),
                            outcome,
                        );
                    assert(call_ensures(P::update, (page, &first, worked_on), outcome));
                }
                Some(r)
            },
        }
    }
}

} // verus!
