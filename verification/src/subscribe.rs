//! How the controller subscribes to its topics.

use vstd::prelude::*;

use crate::app::App;
use crate::common::{DISCOVERY_PREFIX, SUBSCRIBE_DELAY};
use crate::error::Failure;
use crate::publish::{joined, subscribed, Delivery};

verus! {

/// A topic to subscribe to, and how hard the broker is to try to deliver what
/// comes under it.
#[derive(Debug)]
pub struct Subscription {
    pub topic: String,
    pub qos: Delivery,
}

/// A topic to subscribe to.
#[verifier::ext_equal]
pub struct SubscriptionView {
    pub topic: Seq<char>,
    pub qos: Delivery,
}

impl View for Subscription {
    type V = SubscriptionView;

    open spec fn view(&self) -> SubscriptionView {
        SubscriptionView { topic: self.topic@, qos: self.qos }
    }
}

/// What subscriptions say.
pub open spec fn subscriptions_view(subs: Seq<Subscription>) -> Seq<SubscriptionView> {
    Seq::new(subs.len(), |i: int| subs[i]@)
}

/// The subscriptions of a controller: every topic with delivery exactly once.
pub open spec fn subscriptions(base: Seq<char>) -> Seq<SubscriptionView> {
    Seq::new(
        subscribed(base).len(),
        |i: int| SubscriptionView { topic: subscribed(base)[i], qos: Delivery::ExactlyOnce },
    )
}

/// Which topic is next once subscribing to the one at `index` came out so.
pub open spec fn next_index(index: int, outcome: Result<(), Failure>) -> int {
    match outcome {
        Ok(_) => index + 1,
        Err(_) => index,
    }
}

/// How many milliseconds pass before the next attempt.
pub open spec fn wait_after(outcome: Result<(), Failure>) -> Option<u64> {
    match outcome {
        Ok(_) => None,
        Err(_) => Some(SUBSCRIBE_DELAY),
    }
}

fn exactly_once(topic: String) -> (sub: Subscription)
    ensures
        sub@ == (SubscriptionView { topic: topic@, qos: Delivery::ExactlyOnce }),
{
    Subscription { topic, qos: Delivery::ExactlyOnce }
}

/// Subscriptions that are being made, one after the other.
#[derive(Debug)]
pub struct Subscribing {
    pub subs: Vec<Subscription>,
    /// The one that is next.
    pub index: usize,
}

impl Subscribing {
    /// The next one is one of them, unless all of them are made.
    pub open spec fn wf(&self) -> bool {
        self.index <= self.subs@.len()
    }

    /// The subscription to be attempted next; none once all of them are made.
    pub fn current(&self) -> (sub: Option<&Subscription>)
        requires
            self.wf(),
        ensures
            match sub {
                Some(sub) => self.index < self.subs@.len() && *sub == self.subs@[self.index as int],
                None => self.index == self.subs@.len(),
            },
    {
        if self.index < self.subs.len() {
            Some(&self.subs[self.index])
        } else {
            None
        }
    }

    /// The attempt came out so: the next subscription is due, or the same one
    /// again. Returns how many milliseconds to wait before it is attempted.
    pub fn on_outcome(&mut self, outcome: Result<(), Failure>) -> (wait: Option<u64>)
        requires
            old(self).index < old(self).subs@.len(),
        ensures
            final(self).subs == old(self).subs,
            final(self).index == next_index(old(self).index as int, outcome),
            wait == wait_after(outcome),
            final(self).wf(),
    {
        match outcome {
            Ok(_) => {
                assert(self.index < self.subs.len());
                self.index = self.index + 1;
                None
            },
            Err(_) => Some(SUBSCRIBE_DELAY),
        }
    }
}

impl App {
    /// The topics that are to be subscribed to, in their order, each with
    /// delivery exactly once.
    pub fn subscribe_topics(&self) -> (subs: Vec<Subscription>)
        ensures
            subscriptions_view(subs@) == subscriptions(self.base_topic@),
    {
        let base = self.base_topic.as_str();
        let subs: Vec<Subscription> = vec![
            exactly_once(joined(DISCOVERY_PREFIX, "/status")),
            exactly_once(joined(base, "/+/set")),
            exactly_once(joined(base, "/+/+/set")),
            exactly_once(joined(base, "/admin/+")),
        ];
        assert(subscriptions_view(subs@) =~= subscriptions(self.base_topic@));
        subs
    }

    /// Begins to subscribe to the topics.
    pub fn subscribing(&self) -> (res: Subscribing)
        ensures
            subscriptions_view(res.subs@) == subscriptions(self.base_topic@),
            res.index == 0,
            res.wf(),
    {
        Subscribing { subs: self.subscribe_topics(), index: 0 }
    }
}

/// Which of `n` subscriptions is next after attempts came out so. Once all of
/// them are made, nothing more is attempted.
pub open spec fn reached(n: int, outcomes: Seq<Result<(), Failure>>) -> int
    decreases outcomes.len(),
{
    if outcomes.len() == 0 {
        0
    } else {
        let index = reached(n, outcomes.drop_last());
        if index < n {
            next_index(index, outcomes.last())
        } else {
            index
        }
    }
}

/// The subscriptions that were made, in the order in which they were made,
/// after attempts came out so.
pub open spec fn made(
    subs: Seq<SubscriptionView>,
    outcomes: Seq<Result<(), Failure>>,
) -> Seq<SubscriptionView>
    decreases outcomes.len(),
{
    if outcomes.len() == 0 {
        Seq::empty()
    } else {
        let before = made(subs, outcomes.drop_last());
        let index = reached(subs.len() as int, outcomes.drop_last());
        if index < subs.len() && outcomes.last() is Ok {
            before.push(subs[index])
        } else {
            before
        }
    }
}

/// How many attempts succeeded.
pub open spec fn successes(outcomes: Seq<Result<(), Failure>>) -> int
    decreases outcomes.len(),
{
    if outcomes.len() == 0 {
        0
    } else {
        successes(outcomes.drop_last()) + if outcomes.last() is Ok {
            1int
        } else {
            0int
        }
    }
}

/// However the attempts come out, the subscriptions that were made are the
/// first ones, each made once and in their order. Once none is left, every one
/// of them was made, and that is so as soon as as many attempts succeeded as
/// there are subscriptions, however many failed.
pub proof fn law_every_topic_is_subscribed_once(
    subs: Seq<SubscriptionView>,
    outcomes: Seq<Result<(), Failure>>,
)
    ensures
        0 <= reached(subs.len() as int, outcomes) <= subs.len(),
        made(subs, outcomes) == subs.take(reached(subs.len() as int, outcomes)),
        reached(subs.len() as int, outcomes) == subs.len() ==> made(subs, outcomes) == subs,
        reached(subs.len() as int, outcomes) == subs.len() <==> successes(outcomes) >= subs.len(),
{
    lemma_made(subs, outcomes);
    assert(subs.take(subs.len() as int) =~= subs);
}

proof fn lemma_made(subs: Seq<SubscriptionView>, outcomes: Seq<Result<(), Failure>>)
    ensures
        0 <= reached(subs.len() as int, outcomes) <= subs.len(),
        made(subs, outcomes) == subs.take(reached(subs.len() as int, outcomes)),
        successes(outcomes) >= reached(subs.len() as int, outcomes),
        reached(subs.len() as int, outcomes) < subs.len() ==> successes(outcomes) == reached(
            subs.len() as int,
            outcomes,
        ),
    decreases outcomes.len(),
{
    if outcomes.len() == 0 {
        assert(subs.take(0) =~= Seq::empty());
    } else {
        let before = outcomes.drop_last();
        lemma_made(subs, before);
        let index = reached(subs.len() as int, before);
        if index < subs.len() && outcomes.last() is Ok {
            assert(subs.take(index).push(subs[index]) =~= subs.take(index + 1));
        }
    }
}

/// A subscription that failed is attempted again, after a wait and before any
/// other, until it succeeds.
pub proof fn law_failed_topic_is_tried_again(
    n: int,
    outcomes: Seq<Result<(), Failure>>,
    failures: Seq<Failure>,
)
    ensures
        reached(n, outcomes + failed(failures)) == reached(n, outcomes),
        forall|i: int|
            0 <= i < failures.len() ==> wait_after(#[trigger] failed(failures)[i]) == Some(
                SUBSCRIBE_DELAY,
            ),
    decreases failures.len(),
{
    let all = outcomes + failed(failures);
    if failures.len() == 0 {
        assert(all =~= outcomes);
    } else {
        assert(all.drop_last() =~= outcomes + failed(failures.drop_last()));
        law_failed_topic_is_tried_again(n, outcomes, failures.drop_last());
    }
}

/// Attempts that failed so.
pub open spec fn failed(failures: Seq<Failure>) -> Seq<Result<(), Failure>> {
    Seq::new(failures.len(), |i: int| Err(failures[i]))
}

/// There is half a second between an attempt that failed and the next, and
/// none after one that succeeded.
pub proof fn law_waits_follow_failures(index: int, outcome: Result<(), Failure>)
    ensures
        wait_after(outcome) == Some(500u64) <==> outcome is Err,
        wait_after(outcome) is None <==> outcome is Ok,
        next_index(index, outcome) == index <==> outcome is Err,
        next_index(index, outcome) == index + 1 <==> outcome is Ok,
{
}

/// What a controller subscribes to: the sign of life of Home Assistant, what
/// can be set one and two levels below its own topics, and what is for its
/// maintainer, each to be delivered exactly once.
pub proof fn law_subscriptions_are_these(base: Seq<char>, i: int)
    ensures
        subscriptions(base).len() == 4,
        subscriptions(base)[0].topic == "homeassistant/status"@,
        subscriptions(base)[1].topic == base + "/+/set"@,
        subscriptions(base)[2].topic == base + "/+/+/set"@,
        subscriptions(base)[3].topic == base + "/admin/+"@,
        0 <= i < 4 ==> subscriptions(base)[i].qos == Delivery::ExactlyOnce,
{
    reveal_strlit("homeassistant/status");
    reveal_strlit("homeassistant");
    reveal_strlit("/status");
    assert(DISCOVERY_PREFIX@ + "/status"@ =~= "homeassistant/status"@);
}

/// The view of subscriptions holds all of them, in their order.
pub proof fn law_subscriptions_are_kept(subs: Seq<Subscription>, i: int)
    ensures
        subscriptions_view(subs).len() == subs.len(),
        0 <= i < subs.len() ==> {
            &&& subscriptions_view(subs)[i].topic == subs[i].topic@
            &&& subscriptions_view(subs)[i].qos == subs[i].qos
        },
{
}

} // verus!
