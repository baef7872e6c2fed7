//! What stays true of the controller and the fan, whatever happens.

use vstd::prelude::*;

use crate::app::SignalView;
use crate::buttons::{fan_after_button, next_percent, reaction_to_button, Button};
use crate::countdown::{countdown_for, Countdown};
use crate::device::{
    in_step, law_set_power_in_step, law_set_speed_in_step, law_set_timer_in_step,
    law_timeout_in_step, timer_above, Device,
};
use crate::mqtt::{fan_after, reaction_to, CommandView};
use crate::reaction::NoticeView;
use crate::state::{Fan, Key, Step, Timer};

verus! {

/// Something that happens to the controller.
pub enum Happening {
    /// A request is served.
    Command(CommandView),
    /// A button went down and, a moment later, was or was not still down.
    Button(Button, bool),
    /// The fan's timer has run out, and the controller notices.
    TimeOut,
}

impl Happening {
    /// What is requested can be served.
    pub open spec fn wf(self) -> bool {
        self matches Happening::Command(command) ==> command.wf()
    }
}

/// What the controller remembers after something happened.
pub open spec fn remembered(fan: Fan, happening: Happening) -> Fan {
    match happening {
        Happening::Command(command) => fan_after(fan, command),
        Happening::Button(button, high) => fan_after_button(fan, button, high),
        Happening::TimeOut => Fan::fresh(false),
    }
}

/// The fan after the controller has dealt with something that happened.
pub open spec fn carried_out(fan: Fan, device: Device, happening: Happening) -> Device {
    match happening {
        Happening::Command(command) => device.after(reaction_to(fan, command).steps),
        Happening::Button(button, high) => match reaction_to_button(fan, button, high) {
            Some(reaction) => device.after(reaction.steps),
            None => device,
        },
        Happening::TimeOut => device.timed_out(),
    }
}

/// What is remembered, and what the fan does, after a history.
pub open spec fn lived_through(fan: Fan, device: Device, history: Seq<Happening>) -> (Fan, Device)
    decreases history.len(),
{
    if history.len() == 0 {
        (fan, device)
    } else {
        let (f, d) = lived_through(fan, device, history.drop_last());
        (remembered(f, history.last()), carried_out(f, d, history.last()))
    }
}

/// Whatever happens, what the controller remembers stays true of the fan, and
/// stays consistent in itself.
pub proof fn law_stays_in_step(fan: Fan, device: Device, happening: Happening)
    requires
        in_step(fan, device),
        fan.wf(),
        happening.wf(),
    ensures
        in_step(remembered(fan, happening), carried_out(fan, device, happening)),
        remembered(fan, happening).wf(),
{
    match happening {
        Happening::Command(command) => match command {
            CommandView::SetPower(val) => law_set_power_in_step(fan, device, val),
            CommandView::SetSpeed(val) => law_set_speed_in_step(fan, device, val),
            CommandView::SetTimer(val) => if fan.power {
                law_set_timer_in_step(fan, device, val);
            },
            _ => {},
        },
        Happening::Button(button, high) => if high {
            match button {
                Button::Power => {
                    law_set_power_in_step(fan, device, !fan.power);
                    assert(fan.power_steps(!fan.power) =~= seq![Step::Send(Key::Power)]);
                },
                Button::Speed => law_set_speed_in_step(
                    fan,
                    device,
                    next_percent(fan.speed_lvl),
                ),
                Button::Timer => if fan.power {
                    law_set_timer_in_step(fan, device, timer_above(fan.timer));
                },
            }
        },
        Happening::TimeOut => law_timeout_in_step(fan, device),
    }
}

/// After any history, what the controller remembers is true of the fan, and
/// consistent in itself.
pub proof fn law_always_in_step(fan: Fan, device: Device, history: Seq<Happening>)
    requires
        in_step(fan, device),
        fan.wf(),
        forall|i: int| 0 <= i < history.len() ==> (#[trigger] history[i]).wf(),
    ensures
        in_step(
            lived_through(fan, device, history).0,
            lived_through(fan, device, history).1,
        ),
        lived_through(fan, device, history).0.wf(),
    decreases history.len(),
{
    if history.len() > 0 {
        law_always_in_step(fan, device, history.drop_last());
        let (f, d) = lived_through(fan, device, history.drop_last());
        assert(history.last() == history[history.len() - 1]);
        law_stays_in_step(f, d, history.last());
    }
}

/// What is passed on after something happened.
pub open spec fn passed_on(fan: Fan, happening: Happening) -> Seq<NoticeView> {
    match happening {
        Happening::Command(command) => reaction_to(fan, command).notices,
        Happening::Button(button, high) => match reaction_to_button(fan, button, high) {
            Some(reaction) => reaction.notices,
            None => Seq::empty(),
        },
        Happening::TimeOut => seq![NoticeView::Signal(SignalView::Publish)],
    }
}

/// The time that begins to run is the one that the fan was set to: the task
/// that watches the timer is handed just the setting that is remembered of a
/// fan that is on.
pub proof fn law_started_timer_is_remembered(fan: Fan, happening: Happening, i: int, timer: Timer)
    requires
        0 <= i < passed_on(fan, happening).len(),
        passed_on(fan, happening)[i] == NoticeView::StartTimer(timer),
    ensures
        remembered(fan, happening).power,
        remembered(fan, happening).timer == timer,
{
}

/// A timer setting that is remembered anew of a fan that stays on is handed to
/// the task that watches the timer.
pub proof fn law_new_timer_is_started(fan: Fan, happening: Happening)
    requires
        fan.power,
        remembered(fan, happening).power,
        remembered(fan, happening).timer != fan.timer,
    ensures
        passed_on(fan, happening).contains(
            NoticeView::StartTimer(remembered(fan, happening).timer),
        ),
{
    let timer = remembered(fan, happening).timer;
    match happening {
        Happening::Command(_) => {
            assert(passed_on(fan, happening)[1] == NoticeView::StartTimer(timer));
        },
        Happening::Button(_, _) => {
            assert(passed_on(fan, happening)[0] == NoticeView::StartTimer(timer));
        },
        Happening::TimeOut => {},
    }
}

/// What the task that watches the timer waits for after notices were passed
/// on: the last setting that was handed to it counts.
pub open spec fn watched(countdown: Countdown, notices: Seq<NoticeView>) -> Countdown
    decreases notices.len(),
{
    if notices.len() == 0 {
        countdown
    } else {
        match notices.last() {
            NoticeView::StartTimer(timer) => countdown_for(timer),
            _ => watched(countdown, notices.drop_last()),
        }
    }
}

/// What the task that watches the timer waits for after something happened.
pub open spec fn waited_for(countdown: Countdown, fan: Fan, happening: Happening) -> Countdown {
    match happening {
        Happening::TimeOut => Countdown::Idle,
        _ => watched(countdown, passed_on(fan, happening)),
    }
}

/// The time that runs is the one that a fan that is on is set to.
pub open spec fn in_time(fan: Fan, countdown: Countdown) -> bool {
    fan.power ==> countdown == countdown_for(fan.timer)
}

/// The time that runs stays the one that a fan that is on is set to, whatever
/// happens, unless the fan is turned on while the time of an earlier timer
/// still runs.
pub proof fn law_stays_in_time(fan: Fan, countdown: Countdown, happening: Happening)
    requires
        in_time(fan, countdown),
        !fan.power && remembered(fan, happening).power ==> countdown is Idle,
    ensures
        in_time(remembered(fan, happening), waited_for(countdown, fan, happening)),
{
    reveal_with_fuel(watched, 3);
}

} // verus!
