//! The buttons on the controller.

use vstd::prelude::*;

use crate::app::{App, SignalType, SignalView};
use crate::device::{speed_below, timer_above};
use crate::mqtt::{fan_after, reaction_to, CommandView};
use crate::reaction::{once, Notice, NoticeView, Reaction, ReactionView};
use crate::state::{paused_presses, Fan, Key, Speed, Step, Timer, SIGNAL_DELAY};

verus! {

/// Milliseconds after which a button that went down must still be down.
pub const DEBOUNCE_DELAY: u64 = 50;

/// Milliseconds for which the buttons rest after one was served.
pub const SETTLE_DELAY: u64 = 200;

/// A button on the controller.
#[derive(Clone, Copy, Debug, PartialEq, Eq, Structural)]
pub enum Button {
    Power,
    Speed,
    Timer,
}

impl Button {
    /// What is said when the button is pressed.
    pub open spec fn message(self) -> Seq<char> {
        match self {
            Button::Power => "Power button pressed!"@,
            Button::Speed => "Speed button pressed!"@,
            Button::Timer => "Timer button pressed!"@,
        }
    }
}

/// The percentage that the speed button asks for at a setting.
pub open spec fn next_percent(speed: Speed) -> u8 {
    match speed {
        Speed::Low => 100,
        Speed::Med => 33,
        Speed::High => 67,
    }
}

/// What the controller remembers after a button went down and, a moment later,
/// was or was not still down.
pub open spec fn fan_after_button(fan: Fan, button: Button, high: bool) -> Fan {
    if !high {
        fan
    } else {
        match button {
            Button::Power => Fan::fresh(!fan.power),
            Button::Speed => fan.at_speed(next_percent(fan.speed_lvl)),
            Button::Timer => if fan.power {
                fan.at_timer(timer_above(fan.timer))
            } else {
                fan
            },
        }
    }
}

/// What the controller does about it. There is nothing to do if the timer
/// button is pressed while the fan is off; in every other case the state is
/// published, even if the button was not pressed after all.
pub open spec fn reaction_to_button(fan: Fan, button: Button, high: bool) -> Option<ReactionView> {
    let publish = NoticeView::Signal(SignalView::Publish);
    if !high {
        Some(ReactionView { steps: Seq::empty(), notices: seq![publish] })
    } else {
        match button {
            Button::Power => Some(
                ReactionView { steps: seq![Step::Send(Key::Power)], notices: seq![publish] },
            ),
            Button::Speed => Some(
                ReactionView {
                    steps: fan.speed_steps(next_percent(fan.speed_lvl)),
                    notices: seq![publish],
                },
            ),
            Button::Timer => if fan.power {
                let next = timer_above(fan.timer);
                Some(
                    ReactionView {
                        steps: fan.timer_steps(next),
                        notices: seq![NoticeView::StartTimer(next), publish],
                    },
                )
            } else {
                None
            },
        }
    }
}

/// For how many milliseconds the buttons rest afterwards: not at all where
/// there was nothing to do.
pub open spec fn rest_for(reaction: Option<ReactionView>) -> Option<u64> {
    match reaction {
        Some(_) => Some(SETTLE_DELAY),
        None => None,
    }
}

/// For how many milliseconds the buttons rest after a reaction was carried
/// out, or there was none.
pub fn rest_after(reaction: &Option<Reaction>) -> (wait: Option<u64>)
    ensures
        wait == rest_for(
            match reaction {
                Some(reaction) => Some(reaction@),
                None => None,
            },
        ),
{
    match reaction {
        Some(_) => Some(SETTLE_DELAY),
        None => None,
    }
}

impl Speed {
    /// The percentage that the speed button asks for at this setting.
    pub fn next_percent(&self) -> (pct: u8)
        ensures
            pct == next_percent(*self),
    {
        match self {
            Speed::Low => 100,
            Speed::Med => 33,
            Speed::High => 67,
        }
    }
}

impl Timer {
    /// The setting that the timer button asks for at this setting.
    pub fn next_setting(&self) -> (timer: Timer)
        ensures
            timer == timer_above(*self),
    {
        match self {
            Timer::Off => Timer::T1,
            Timer::T1 => Timer::T2,
            Timer::T2 => Timer::T4,
            Timer::T4 => Timer::T8,
            Timer::T8 => Timer::Off,
        }
    }
}

impl App {
    /// What is said, before anything is done, when a button went down and, a
    /// moment later, was or was not still down.
    pub fn button_log(&self, button: Button, high: bool) -> (signal: Option<SignalType>)
        ensures
            match signal {
                Some(signal) => high && signal@ == SignalView::Log(button.message()),
                None => !high,
            },
    {
        if !high {
            return None;
        }
        let msg = match button {
            Button::Power => "Power button pressed!",
            Button::Speed => "Speed button pressed!",
            Button::Timer => "Timer button pressed!",
        };
        Some(self.mqtt_log(msg.to_owned()))
    }

    /// One turn of the task that watches the buttons: what is done when a
    /// button went down and, a moment later, was or was not still down.
    pub fn button_step(&self, state: &mut Fan, button: Button, high: bool) -> (res: Option<
        Reaction,
    >)
        ensures
            *final(state) == fan_after_button(*old(state), button, high),
            match res {
                Some(reaction) => reaction_to_button(*old(state), button, high) == Some(
                    reaction@,
                ),
                None => reaction_to_button(*old(state), button, high) is None,
            },
            old(state).wf() ==> final(state).wf(),
    {
        let ghost before = *state;
        let publish = Notice::Signal(self.signal_needs_publish());
        let res = if !high {
            Reaction { steps: Vec::new(), notices: vec![publish] }
        } else {
            match button {
                Button::Power => Reaction {
                    steps: state.toggle_power(),
                    notices: vec![publish],
                },
                Button::Speed => {
                    let pct: u8 = state.speed_lvl.next_percent();
                    Reaction { steps: state.set_speed(pct), notices: vec![publish] }
                },
                Button::Timer => {
                    let next = state.timer.next_setting();
                    match state.set_timer(next) {
                        Ok((_, steps)) => Reaction {
                            steps,
                            notices: vec![Notice::StartTimer(next), publish],
                        },
                        Err(_) => return None,
                    }
                },
            }
        };
        assert(res@ =~= reaction_to_button(before, button, high)->0);
        Some(res)
    }
}

/// The buttons rest after every press, and after what was none, except where
/// the timer button is pressed while the fan is off.
pub proof fn law_buttons_rest(fan: Fan, button: Button, high: bool)
    ensures
        rest_for(reaction_to_button(fan, button, high)) == (if high && button == Button::Timer
            && !fan.power {
            None
        } else {
            Some(SETTLE_DELAY)
        }),
{
}

/// On a fan that is on, the speed button does what one press of the speed key
/// of the remote control does.
pub proof fn law_speed_button_is_one_press(fan: Fan)
    requires
        fan.power,
    ensures
        fan.speed_steps(next_percent(fan.speed_lvl)) == seq![
            Step::Send(Key::Speed),
            Step::Pause(SIGNAL_DELAY),
        ],
        fan.at_speed(next_percent(fan.speed_lvl)).speed_lvl == speed_below(fan.speed_lvl),
{
    reveal_with_fuel(paused_presses, 2);
    assert(paused_presses(Key::Speed, 1) =~= seq![
        Step::Send(Key::Speed),
        Step::Pause(SIGNAL_DELAY),
    ]);
}

/// On a fan that is on, the timer button does what one press of the timer key
/// of the remote control does.
pub proof fn law_timer_button_is_one_press(fan: Fan)
    requires
        fan.power,
    ensures
        fan.timer_steps(timer_above(fan.timer)) == seq![
            Step::Send(Key::Timer),
            Step::Pause(SIGNAL_DELAY),
        ],
        fan.at_timer(timer_above(fan.timer)).timer == timer_above(fan.timer),
{
    reveal_with_fuel(paused_presses, 2);
    assert(paused_presses(Key::Timer, 1) =~= seq![
        Step::Send(Key::Timer),
        Step::Pause(SIGNAL_DELAY),
    ]);
}

/// What a button asks for when it is pressed.
pub open spec fn asked(fan: Fan, button: Button) -> CommandView {
    match button {
        Button::Power => CommandView::SetPower(!fan.power),
        Button::Speed => CommandView::SetSpeed(next_percent(fan.speed_lvl)),
        Button::Timer => CommandView::SetTimer(timer_above(fan.timer)),
    }
}

/// To press a button does to the fan what the request for the same setting
/// does: what is remembered and the key presses are the same.
pub proof fn law_buttons_are_requests(fan: Fan, button: Button)
    ensures
        fan_after_button(fan, button, true) == fan_after(fan, asked(fan, button)),
        reaction_to_button(fan, button, true) matches Some(reaction) ==> reaction.steps
            == reaction_to(fan, asked(fan, button)).steps,
{
    assert(fan.power_steps(!fan.power) =~= seq![Step::Send(Key::Power)]);
}

/// Whenever there is a reaction to a button, the state is published, once and
/// last. Besides that, a timer is handed on just where the timer button was
/// pressed, and nothing else is passed on.
pub proof fn law_buttons_are_published(fan: Fan, button: Button, high: bool, i: int)
    ensures
        reaction_to_button(fan, button, high) is None <==> high && button == Button::Timer
            && !fan.power,
        reaction_to_button(fan, button, high) matches Some(reaction) ==> {
            &&& once(reaction.notices, NoticeView::Signal(SignalView::Publish))
            &&& reaction.notices.last() == NoticeView::Signal(SignalView::Publish)
            &&& reaction.notices.len() <= 2
            &&& reaction.notices.len() == 2 <==> high && button == Button::Timer
            &&& high && button == Button::Timer ==> reaction.notices[0] == NoticeView::StartTimer(
                fan_after_button(fan, button, high).timer,
            )
            &&& 0 <= i < reaction.notices.len() ==> {
                ||| reaction.notices[i] == NoticeView::Signal(SignalView::Publish)
                ||| reaction.notices[i] is StartTimer
            }
        },
        fan_after_button(fan, button, high) != fan ==> (reaction_to_button(fan, button, high)
            matches Some(reaction) && reaction.notices.contains(
            NoticeView::Signal(SignalView::Publish),
        )),
{
    if let Some(reaction) = reaction_to_button(fan, button, high) {
        let publish = NoticeView::Signal(SignalView::Publish);
        assert(reaction.notices[reaction.notices.len() - 1] == publish);
    }
}

/// A button that was not pressed after all does nothing to the fan.
pub proof fn law_released_button_does_nothing(fan: Fan, button: Button)
    ensures
        fan_after_button(fan, button, false) == fan,
        reaction_to_button(fan, button, false) matches Some(reaction) && reaction.steps.len() == 0,
{
}

/// The speed button asks for the highest percentage of the setting below, and
/// at the slowest for that of the fastest.
pub proof fn law_speed_button_asks_for_the_next(speed: Speed, pct: int)
    ensures
        Speed::of_percent(next_percent(speed) as int) == Some(speed_below(speed)),
        Speed::of_percent(pct) == Some(speed_below(speed)) ==> pct <= next_percent(speed),
        speed.presses_to(speed_below(speed)) == 1,
{
}

/// The timer button asks for the setting above, and at the longest for none;
/// and a press of it on a fan that is on changes nothing else.
pub proof fn law_timer_button_asks_for_the_next(fan: Fan)
    ensures
        fan.timer.presses_to(timer_above(fan.timer)) == 1,
        fan_after_button(fan, Button::Timer, true).power == fan.power,
        fan_after_button(fan, Button::Timer, true).speed == fan.speed,
        fan_after_button(fan, Button::Timer, true).speed_lvl == fan.speed_lvl,
        fan_after_button(fan, Button::Timer, true).timer == (if fan.power {
            timer_above(fan.timer)
        } else {
            fan.timer
        }),
{
}

/// A button says which one it is.
pub proof fn law_buttons_say_their_names(button: Button)
    ensures
        button == Button::Power ==> button.message() == "Power button pressed!"@,
        button == Button::Speed ==> button.message() == "Speed button pressed!"@,
        button == Button::Timer ==> button.message() == "Timer button pressed!"@,
{
}

/// A fifth of a second of rest follows every reaction, whatever it is.
pub proof fn law_rest_follows_reactions(reaction: Option<ReactionView>)
    ensures
        rest_for(reaction) == Some(200u64) <==> reaction is Some,
        rest_for(reaction) is None <==> reaction is None,
{
}

} // verus!
