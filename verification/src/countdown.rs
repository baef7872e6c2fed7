//! The controller's own watch over the fan's timer.

use vstd::prelude::*;

use crate::app::{SignalType, SignalView};
use crate::reaction::{Notice, NoticeView, Reaction, ReactionView};
use crate::state::{Fan, Timer};

verus! {

/// What the task that watches the timer waits for.
#[derive(Clone, Copy, Debug, PartialEq, Eq, Structural)]
pub enum Countdown {
    /// A timer setting.
    Idle,
    /// The end of the time, or another timer setting.
    Running(Timer),
}

/// What is waited for after a timer setting came.
pub open spec fn countdown_for(val: Timer) -> Countdown {
    if val == Timer::Off {
        Countdown::Idle
    } else {
        Countdown::Running(val)
    }
}

/// What is said when a timer setting came: nothing if the timer is off.
pub open spec fn countdown_message(val: Timer) -> Option<SignalView> {
    if val == Timer::Off {
        None
    } else {
        Some(SignalView::Log("Starting new fan timer: "@ + val.short_label()))
    }
}

impl Countdown {
    /// No time runs while the timer is off.
    pub open spec fn wf(self) -> bool {
        self != Countdown::Running(Timer::Off)
    }

    /// Waits for a timer setting.
    pub fn new() -> (res: Countdown)
        ensures
            res == Countdown::Idle,
            res.wf(),
    {
        Countdown::Idle
    }

    /// The time that is waited for, in seconds.
    pub fn seconds(&self) -> (res: Option<u64>)
        ensures
            match *self {
                Countdown::Idle => res is None,
                Countdown::Running(timer) => res == Some((timer.hours() * 3600) as u64),
            },
    {
        match self {
            Countdown::Idle => None,
            Countdown::Running(timer) => Some(timer.seconds()),
        }
    }

    /// A timer setting came: whatever was waited for, its time runs from now
    /// on. Returns what is said about it, before the time runs.
    pub fn on_setting(&mut self, val: Timer) -> (signal: Option<SignalType>)
        ensures
            *final(self) == countdown_for(val),
            final(self).wf(),
            match signal {
                Some(signal) => countdown_message(val) == Some(signal@),
                None => countdown_message(val) is None,
            },
    {
        if val == Timer::Off {
            *self = Countdown::Idle;
            None
        } else {
            *self = Countdown::Running(val);
            let mut msg = "Starting new fan timer: ".to_owned();
            msg.append(val.short_name());
            Some(SignalType::Log(msg))
        }
    }

    /// The time is over: the fan has turned itself off, and that is noted.
    pub fn on_expired(&mut self, state: &mut Fan) -> (res: Reaction)
        requires
            *old(self) is Running,
        ensures
            *final(self) == Countdown::Idle,
            *final(state) == Fan::fresh(false),
            final(state).wf(),
            res@ == (ReactionView {
                steps: Seq::empty(),
                notices: seq![NoticeView::Signal(SignalView::Publish)],
            }),
    {
        state.reset(false);
        *self = Countdown::Idle;
        let res = Reaction {
            steps: Vec::new(),
            notices: vec![Notice::Signal(SignalType::Publish)],
        };
        assert(res@ =~= ReactionView {
            steps: Seq::empty(),
            notices: seq![NoticeView::Signal(SignalView::Publish)],
        });
        res
    }
}

/// Every timer setting but "off" starts its own time, and is told of by its
/// own name; "off" stops whatever runs, and is not told of.
pub proof fn law_settings_start_their_time(val: Timer)
    ensures
        countdown_for(val) is Idle <==> val == Timer::Off,
        countdown_for(val) matches Countdown::Running(timer) ==> timer == val,
        countdown_message(val) is None <==> val == Timer::Off,
        countdown_message(val) matches Some(signal) ==> signal == SignalView::Log(
            "Starting new fan timer: "@ + val.short_label(),
        ),
{
}

} // verus!
