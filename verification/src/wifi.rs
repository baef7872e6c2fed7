//! How the controller gets onto the network, and back onto it.

use vstd::prelude::*;

use crate::error::Failure;

verus! {

/// What is to be done next to get onto the network.
#[derive(Clone, Copy, Debug, PartialEq, Eq, Structural)]
pub enum WifiStage {
    /// Hand over the name of the network and the password.
    Configure,
    /// Start the radio.
    Start,
    /// Connect to the network.
    Connect,
    /// Stop the radio.
    Stop,
    /// Wait for an address.
    WaitUp,
    /// Nothing: the network is up.
    Up,
    /// Nothing: it cannot be done.
    Failed(Failure),
}

impl WifiStage {
    /// There is something left to be done.
    pub open spec fn pending(self) -> bool {
        !(self is Up) && !(self is Failed)
    }

    /// What follows. To connect is tried again until it works, each time with
    /// the radio started anew; any other failure is the end.
    pub open spec fn after(self, outcome: Result<(), Failure>) -> WifiStage {
        match (self, outcome) {
            (WifiStage::Connect, Err(_)) => WifiStage::Stop,
            (_, Err(e)) => WifiStage::Failed(e),
            (WifiStage::Configure, Ok(_)) => WifiStage::Start,
            (WifiStage::Start, Ok(_)) => WifiStage::Connect,
            (WifiStage::Connect, Ok(_)) => WifiStage::WaitUp,
            (WifiStage::Stop, Ok(_)) => WifiStage::Start,
            (_, Ok(_)) => WifiStage::Up,
        }
    }

    /// What follows upon the outcome of what was to be done.
    pub fn next(&self, outcome: Result<(), Failure>) -> (stage: WifiStage)
        requires
            self.pending(),
        ensures
            stage == self.after(outcome),
    {
        match outcome {
            Err(e) => match self {
                WifiStage::Connect => WifiStage::Stop,
                _ => WifiStage::Failed(e),
            },
            Ok(_) => match self {
                WifiStage::Configure => WifiStage::Start,
                WifiStage::Start => WifiStage::Connect,
                WifiStage::Connect => WifiStage::WaitUp,
                WifiStage::Stop => WifiStage::Start,
                _ => WifiStage::Up,
            },
        }
    }
}

/// The stages that a history of outcomes leads through, up to the last one.
pub open spec fn reached(outcomes: Seq<Result<(), Failure>>) -> WifiStage
    decreases outcomes.len(),
{
    if outcomes.len() == 0 {
        WifiStage::Configure
    } else {
        let before = reached(outcomes.drop_last());
        if before.pending() {
            before.after(outcomes.last())
        } else {
            before
        }
    }
}

/// A history of outcomes that has brought the network up holds an attempt to
/// connect that worked.
pub proof fn law_up_means_connected(outcomes: Seq<Result<(), Failure>>)
    requires
        reached(outcomes) is Up || reached(outcomes) is WaitUp,
    ensures
        exists|i: int|
            #![trigger outcomes[i]]
            0 <= i < outcomes.len() && reached(outcomes.take(i)) is Connect && outcomes[i] is Ok,
    decreases outcomes.len(),
{
    let n = outcomes.len() as int;
    if n > 0 {
        let earlier = outcomes.drop_last();
        assert(outcomes.take(n - 1) =~= earlier);
        assert(outcomes[n - 1] == outcomes.last());
        if !(reached(earlier) is Connect) {
            law_up_means_connected(earlier);
            let i = choose|i: int|
                #![trigger earlier[i]]
                0 <= i < earlier.len() && reached(earlier.take(i)) is Connect && earlier[i] is Ok;
            assert(earlier.take(i) =~= outcomes.take(i));
            assert(outcomes[i] == earlier[i]);
        }
    }
}

proof fn lemma_reached_push(outcomes: Seq<Result<(), Failure>>, outcome: Result<(), Failure>)
    requires
        reached(outcomes).pending(),
    ensures
        reached(outcomes.push(outcome)) == reached(outcomes).after(outcome),
{
    assert(outcomes.push(outcome).drop_last() =~= outcomes);
}

/// Attempts to connect that failed so, each with the radio stopped and started
/// after it.
pub open spec fn retries(failures: Seq<Failure>) -> Seq<Result<(), Failure>>
    decreases failures.len(),
{
    if failures.len() == 0 {
        Seq::empty()
    } else {
        retries(failures.drop_last()).push(Err(failures.last())).push(Ok(())).push(Ok(()))
    }
}

/// However often connecting fails, that alone never makes the controller give
/// up: after the radio was stopped and started, it is tried again.
pub proof fn law_connecting_is_retried(outcomes: Seq<Result<(), Failure>>, failures: Seq<Failure>)
    requires
        reached(outcomes) is Connect,
    ensures
        reached(outcomes + retries(failures)) is Connect,
    decreases failures.len(),
{
    if failures.len() == 0 {
        assert(outcomes + retries(failures) =~= outcomes);
    } else {
        let earlier = failures.drop_last();
        law_connecting_is_retried(outcomes, earlier);
        let before = outcomes + retries(earlier);
        let failed = before.push(Err(failures.last()));
        let stopped = failed.push(Ok(()));
        lemma_reached_push(before, Err(failures.last()));
        lemma_reached_push(failed, Ok(()));
        lemma_reached_push(stopped, Ok(()));
        assert(outcomes + retries(failures) =~= stopped.push(Ok(())));
    }
}

/// Where the controller gives up, something other than connecting has failed,
/// and it gives up with that failure.
pub proof fn law_only_other_failures_are_final(outcomes: Seq<Result<(), Failure>>, e: Failure)
    requires
        reached(outcomes) == WifiStage::Failed(e),
    ensures
        exists|i: int|
            #![trigger outcomes[i]]
            0 <= i < outcomes.len() && !(reached(outcomes.take(i)) is Connect) && outcomes[i]
                == Err::<(), Failure>(e),
    decreases outcomes.len(),
{
    let n = outcomes.len() as int;
    if n > 0 {
        let earlier = outcomes.drop_last();
        assert(outcomes.take(n - 1) =~= earlier);
        assert(outcomes[n - 1] == outcomes.last());
        if !reached(earlier).pending() {
            law_only_other_failures_are_final(earlier, e);
            let i = choose|i: int|
                #![trigger earlier[i]]
                0 <= i < earlier.len() && !(reached(earlier.take(i)) is Connect) && earlier[i]
                    == Err::<(), Failure>(e);
            assert(earlier.take(i) =~= outcomes.take(i));
            assert(outcomes[i] == earlier[i]);
        }
    }
}

/// Whether a connection that dropped is back.
#[derive(Clone, Copy, Debug, PartialEq, Eq, Structural)]
pub enum Reconnecting {
    /// Connect, at once.
    Again,
    /// Nothing: it is back.
    Done,
}

/// What follows once an attempt to connect again came out so.
pub open spec fn reconnecting_after(outcome: Result<(), Failure>) -> Reconnecting {
    match outcome {
        Ok(_) => Reconnecting::Done,
        Err(_) => Reconnecting::Again,
    }
}

/// What follows once an attempt to connect again came out so.
pub fn reconnect_step(outcome: Result<(), Failure>) -> (next: Reconnecting)
    ensures
        next == reconnecting_after(outcome),
{
    match outcome {
        Ok(_) => Reconnecting::Done,
        Err(_) => Reconnecting::Again,
    }
}

/// Whether a connection that dropped is back once attempts came out so.
pub open spec fn reconnecting(outcomes: Seq<Result<(), Failure>>) -> Reconnecting
    decreases outcomes.len(),
{
    if outcomes.len() == 0 {
        Reconnecting::Again
    } else {
        match reconnecting(outcomes.drop_last()) {
            Reconnecting::Again => reconnecting_after(outcomes.last()),
            Reconnecting::Done => Reconnecting::Done,
        }
    }
}

/// A connection that dropped is tried again as often as it takes: attempts go
/// on until one of them works, and no longer.
pub proof fn law_reconnecting_takes_one_success(outcomes: Seq<Result<(), Failure>>)
    ensures
        reconnecting(outcomes) == Reconnecting::Done <==> exists|i: int|
            0 <= i < outcomes.len() && #[trigger] outcomes[i] is Ok,
    decreases outcomes.len(),
{
    if outcomes.len() > 0 {
        let earlier = outcomes.drop_last();
        law_reconnecting_takes_one_success(earlier);
        assert(outcomes.last() == outcomes[outcomes.len() - 1]);
        if exists|i: int| 0 <= i < earlier.len() && #[trigger] earlier[i] is Ok {
            let i = choose|i: int| 0 <= i < earlier.len() && #[trigger] earlier[i] is Ok;
            assert(outcomes[i] == earlier[i]);
        } else {
            assert forall|i: int|
                0 <= i < outcomes.len() && #[trigger] outcomes[i] is Ok implies i
                == outcomes.len() - 1 by {
                if i < earlier.len() {
                    assert(earlier[i] == outcomes[i]);
                }
            }
        }
    }
}

/// What comes of each step. While all goes well, the controller configures
/// and starts the radio, connects, waits for an address and is up; a radio
/// that was stopped is started. Only a connection that failed, however it did,
/// leads to another attempt; any other failure is the end, and is reported as
/// it is.
pub proof fn law_steps_lead_on(stage: WifiStage, e: Failure)
    requires
        stage.pending(),
    ensures
        stage.after(Ok(())) is Start <==> stage is Configure || stage is Stop,
        stage.after(Ok(())) is Connect <==> stage is Start,
        stage.after(Ok(())) is WaitUp <==> stage is Connect,
        stage.after(Ok(())) is Up <==> stage is WaitUp,
        stage.after(Err(e)) is Stop <==> stage is Connect,
        !(stage is Connect) ==> stage.after(Err(e)) == WifiStage::Failed(e),
        stage.pending() <==> !(stage is Up) && !(stage is Failed),
{
}

} // verus!
