//! The fan itself, as far as its remote control reaches it, and why what the
//! controller remembers is what the fan does.

use vstd::prelude::*;

use crate::state::{paused_presses, Fan, Key, Speed, Step, Timer};

verus! {

/// The fan. It starts at full speed and without a timer whenever it is turned
/// on, and hears nothing but the power key while it is off.
pub struct Device {
    pub power: bool,
    pub speed: Speed,
    pub timer: Timer,
}

/// The setting that the speed key selects next: one down.
pub open spec fn speed_below(speed: Speed) -> Speed {
    match speed {
        Speed::High => Speed::Med,
        Speed::Med => Speed::Low,
        Speed::Low => Speed::High,
    }
}

/// The setting that the timer key selects next: one up.
pub open spec fn timer_above(timer: Timer) -> Timer {
    match timer {
        Timer::Off => Timer::T1,
        Timer::T1 => Timer::T2,
        Timer::T2 => Timer::T4,
        Timer::T4 => Timer::T8,
        Timer::T8 => Timer::Off,
    }
}

impl Device {
    /// The fan after a key was pressed.
    pub open spec fn pressed(self, key: Key) -> Device {
        match key {
            Key::Power => Device { power: !self.power, speed: Speed::High, timer: Timer::Off },
            Key::Speed => if self.power {
                Device { speed: speed_below(self.speed), ..self }
            } else {
                self
            },
            Key::Timer => if self.power {
                Device { timer: timer_above(self.timer), ..self }
            } else {
                self
            },
        }
    }

    /// The fan after a key was pressed `n` times.
    pub open spec fn pressed_times(self, key: Key, n: int) -> Device
        decreases n,
    {
        if n <= 0 {
            self
        } else {
            self.pressed_times(key, n - 1).pressed(key)
        }
    }

    /// The fan after a step was taken.
    pub open spec fn stepped(self, step: Step) -> Device {
        match step {
            Step::Send(key) => self.pressed(key),
            Step::Pause(_) => self,
        }
    }

    /// The fan after steps were taken, in their order.
    pub open spec fn after(self, steps: Seq<Step>) -> Device
        decreases steps.len(),
    {
        if steps.len() == 0 {
            self
        } else {
            self.after(steps.drop_last()).stepped(steps.last())
        }
    }

    /// The fan after its timer ran out.
    pub open spec fn timed_out(self) -> Device {
        Device { power: false, ..self }
    }
}

/// What is remembered is true of the fan: whether it is on and, if it is, at
/// which settings it runs.
pub open spec fn in_step(fan: Fan, device: Device) -> bool {
    &&& fan.power == device.power
    &&& fan.power ==> fan.speed_lvl == device.speed && fan.timer == device.timer
}

proof fn lemma_after_push(device: Device, steps: Seq<Step>, step: Step)
    ensures
        device.after(steps.push(step)) == device.after(steps).stepped(step),
{
    assert(steps.push(step).drop_last() =~= steps);
}

proof fn lemma_after_concat(device: Device, first: Seq<Step>, second: Seq<Step>)
    ensures
        device.after(first + second) == device.after(first).after(second),
    decreases second.len(),
{
    if second.len() == 0 {
        assert(first + second =~= first);
    } else {
        assert((first + second).drop_last() =~= first + second.drop_last());
        lemma_after_concat(device, first, second.drop_last());
    }
}

proof fn lemma_after_presses(device: Device, key: Key, n: int)
    requires
        0 <= n,
    ensures
        device.after(paused_presses(key, n)) == device.pressed_times(key, n),
    decreases n,
{
    if n > 0 {
        lemma_after_presses(device, key, n - 1);
        let before = paused_presses(key, n - 1);
        let pause = Step::Pause(crate::state::SIGNAL_DELAY);
        lemma_after_push(device, before, Step::Send(key));
        lemma_after_push(device, before.push(Step::Send(key)), pause);
    }
}

/// From any speed of a fan that is on, as many presses of the speed key as are
/// counted lead to the speed that is wanted, and fewer do not.
pub proof fn law_speed_presses(device: Device, tgt: Speed, n: int)
    requires
        device.power,
        0 <= n <= device.speed.presses_to(tgt),
    ensures
        device.pressed_times(Key::Speed, n).power,
        device.pressed_times(Key::Speed, n).timer == device.timer,
        device.pressed_times(Key::Speed, n).speed == tgt <==> n == device.speed.presses_to(tgt),
{
    reveal_with_fuel(Device::pressed_times, 3);
}

/// From any setting of the timer of a fan that is on, as many presses of the
/// timer key as are counted lead to the setting that is wanted, and fewer do
/// not.
pub proof fn law_timer_presses(device: Device, tgt: Timer, n: int)
    requires
        device.power,
        0 <= n <= device.timer.presses_to(tgt),
    ensures
        device.pressed_times(Key::Timer, n).power,
        device.pressed_times(Key::Timer, n).speed == device.speed,
        device.pressed_times(Key::Timer, n).timer == tgt <==> n == device.timer.presses_to(tgt),
{
    reveal_with_fuel(Device::pressed_times, 5);
}

/// Three presses of the speed key, or five of the timer key, change nothing.
pub proof fn law_keys_cycle(device: Device)
    ensures
        device.pressed_times(Key::Speed, 3) == device,
        device.pressed_times(Key::Timer, 5) == device,
{
    reveal_with_fuel(Device::pressed_times, 6);
}

/// What is remembered stays true of the fan when the power is set, and the
/// fan then is on or off as was wanted.
pub proof fn law_set_power_in_step(fan: Fan, device: Device, val: bool)
    requires
        in_step(fan, device),
    ensures
        in_step(fan.powered(val), device.after(fan.power_steps(val))),
        device.after(fan.power_steps(val)).power == val,
{
    reveal_with_fuel(Device::after, 2);
    assert(seq![Step::Send(Key::Power)].drop_last() =~= Seq::<Step>::empty());
}

/// What is remembered stays true of the fan when the speed is set; and where
/// the fan is on, or a speed above zero is asked for, it then runs at that
/// speed.
pub proof fn law_set_speed_in_step(fan: Fan, device: Device, val: u8)
    requires
        in_step(fan, device),
        val <= 100,
    ensures
        in_step(fan.at_speed(val), device.after(fan.speed_steps(val))),
        fan.power || val > 0 ==> {
            &&& device.after(fan.speed_steps(val)).power
            &&& Some(device.after(fan.speed_steps(val)).speed) == Speed::of_percent(val as int)
        },
{
    let tgt = Speed::of_percent(val as int)->0;
    let n = fan.awake(val).speed_lvl.presses_to(tgt);
    let presses = paused_presses(Key::Speed, n);
    let start = seq![Step::Send(Key::Power), Step::Pause(crate::state::SIGNAL_DELAY)];
    if !fan.power && val > 0 {
        let on = device.pressed(Key::Power);
        assert(start =~= Seq::<Step>::empty().push(start[0]).push(start[1]));
        lemma_after_push(device, Seq::empty(), start[0]);
        lemma_after_push(device, Seq::empty().push(start[0]), start[1]);
        assert(device.after(start) == on);
        lemma_after_concat(device, start, presses);
        lemma_after_presses(on, Key::Speed, n);
        law_speed_presses(on, tgt, n);
    } else {
        lemma_after_presses(device, Key::Speed, n);
        if fan.power {
            law_speed_presses(device, tgt, n);
        } else {
            lemma_off_hears_nothing(device, Key::Speed, n);
        }
    }
}

proof fn lemma_off_hears_nothing(device: Device, key: Key, n: int)
    requires
        !device.power,
        key != Key::Power,
        0 <= n,
    ensures
        device.pressed_times(key, n) == device,
    decreases n,
{
    if n > 0 {
        lemma_off_hears_nothing(device, key, n - 1);
    }
}

/// What is remembered stays true of the fan when the timer is set, and the
/// fan then runs under that timer at the speed it had.
pub proof fn law_set_timer_in_step(fan: Fan, device: Device, val: Timer)
    requires
        in_step(fan, device),
        fan.power,
    ensures
        in_step(fan.at_timer(val), device.after(fan.timer_steps(val))),
        device.after(fan.timer_steps(val)) == (Device { timer: val, ..device }),
{
    let n = fan.timer.presses_to(val);
    lemma_after_presses(device, Key::Timer, n);
    law_timer_presses(device, val, n);
}

/// What is remembered is true of a fan whose timer ran out, once that was
/// noted.
pub proof fn law_timeout_in_step(fan: Fan, device: Device)
    requires
        in_step(fan, device),
    ensures
        in_step(Fan::fresh(false), device.timed_out()),
{
}

} // verus!
