//! What the controller remembers of the fan, and the key presses that bring
//! the fan from one remembered state to the next.

use vstd::prelude::*;

use crate::error::Failure;

verus! {

/// Milliseconds between two key presses, so that the fan can tell them apart.
pub const SIGNAL_DELAY: u64 = 100;

/// A key of the fan's remote control.
#[derive(Clone, Copy, Debug, PartialEq, Eq, Structural)]
pub enum Key {
    Power,
    Speed,
    Timer,
}

/// One thing to do with the remote control.
#[derive(Clone, Copy, Debug, PartialEq, Eq, Structural)]
pub enum Step {
    /// Send the infrared code of a key.
    Send(Key),
    /// Do nothing for that many milliseconds.
    Pause(u64),
}

/// A speed setting of the fan.
#[derive(Clone, Copy, Debug, PartialEq, Eq, Structural)]
pub enum Speed {
    Low,
    Med,
    High,
}

impl Speed {
    /// The position of the setting, counted from the slowest.
    pub open spec fn rank(self) -> int {
        match self {
            Speed::Low => 0,
            Speed::Med => 1,
            Speed::High => 2,
        }
    }

    /// The setting that a percentage stands for; none above one hundred.
    pub open spec fn of_percent(pct: int) -> Option<Speed> {
        if pct <= 33 {
            Some(Speed::Low)
        } else if pct <= 67 {
            Some(Speed::Med)
        } else if pct <= 100 {
            Some(Speed::High)
        } else {
            None
        }
    }

    /// How many presses of a key that goes down one setting, and from the
    /// lowest to the highest, lead from this setting to another.
    pub open spec fn presses_to(self, tgt: Speed) -> int {
        (self.rank() - tgt.rank()) % 3
    }

    /// The name under which the setting is reported.
    pub open spec fn label(self) -> Seq<char> {
        match self {
            Speed::Low => "Low"@,
            Speed::Med => "Med"@,
            Speed::High => "High"@,
        }
    }

    /// The setting that `pct` percent stands for.
    pub fn from_percent(pct: u8) -> (speed: Option<Speed>)
        ensures
            speed == Speed::of_percent(pct as int),
    {
        if pct <= 33 {
            Some(Speed::Low)
        } else if pct <= 67 {
            Some(Speed::Med)
        } else if pct <= 100 {
            Some(Speed::High)
        } else {
            None
        }
    }

    fn position(&self) -> (n: u8)
        ensures
            n == self.rank(),
    {
        match self {
            Speed::Low => 0,
            Speed::Med => 1,
            Speed::High => 2,
        }
    }

    /// How often the speed key has to be pressed to get from this setting to
    /// `tgt`. The key goes down one setting.
    pub fn num_until_speed(&self, tgt: Speed) -> (n: u8)
        ensures
            n == self.presses_to(tgt),
            n < 3,
    {
        (3 + self.position() - tgt.position()) % 3
    }

    /// The name under which the setting is reported.
    pub fn name(&self) -> (name: &'static str)
        ensures
            name@ == self.label(),
    {
        match self {
            Speed::Low => "Low",
            Speed::Med => "Med",
            Speed::High => "High",
        }
    }
}

/// A setting of the fan's auto-off timer.
#[derive(Clone, Copy, Debug, PartialEq, Eq, Structural)]
pub enum Timer {
    Off,
    T1,
    T2,
    T4,
    T8,
}

impl Timer {
    /// The position of the setting, counted from "off".
    pub open spec fn rank(self) -> int {
        match self {
            Timer::Off => 0,
            Timer::T1 => 1,
            Timer::T2 => 2,
            Timer::T4 => 3,
            Timer::T8 => 4,
        }
    }

    /// How many presses of a key that goes up one setting, and from the
    /// longest to "off", lead from this setting to another.
    pub open spec fn presses_to(self, tgt: Timer) -> int {
        (tgt.rank() - self.rank()) % 5
    }

    /// After how many hours the fan turns itself off.
    pub open spec fn hours(self) -> int {
        match self {
            Timer::Off => 0,
            Timer::T1 => 1,
            Timer::T2 => 2,
            Timer::T4 => 4,
            Timer::T8 => 8,
        }
    }

    /// The name under which the setting is reported and requested.
    pub open spec fn label(self) -> Seq<char> {
        match self {
            Timer::Off => "Off"@,
            Timer::T1 => "1 hr"@,
            Timer::T2 => "2 hr"@,
            Timer::T4 => "4 hr"@,
            Timer::T8 => "8 hr"@,
        }
    }

    /// The setting of that name, if there is one.
    pub open spec fn of_label(name: Seq<char>) -> Option<Timer> {
        if name == Timer::Off.label() {
            Some(Timer::Off)
        } else if name == Timer::T1.label() {
            Some(Timer::T1)
        } else if name == Timer::T2.label() {
            Some(Timer::T2)
        } else if name == Timer::T4.label() {
            Some(Timer::T4)
        } else if name == Timer::T8.label() {
            Some(Timer::T8)
        } else {
            None
        }
    }

    /// The name of the setting in messages meant for a maintainer.
    pub open spec fn short_label(self) -> Seq<char> {
        match self {
            Timer::Off => "Off"@,
            Timer::T1 => "T1"@,
            Timer::T2 => "T2"@,
            Timer::T4 => "T4"@,
            Timer::T8 => "T8"@,
        }
    }

    fn position(&self) -> (n: u8)
        ensures
            n == self.rank(),
    {
        match self {
            Timer::Off => 0,
            Timer::T1 => 1,
            Timer::T2 => 2,
            Timer::T4 => 3,
            Timer::T8 => 4,
        }
    }

    /// How often the timer key has to be pressed to get from this setting to
    /// `tgt`. The key goes up one setting.
    pub fn num_until_time(&self, tgt: Timer) -> (n: u8)
        ensures
            n == self.presses_to(tgt),
            n < 5,
    {
        (5 + tgt.position() - self.position()) % 5
    }

    /// How long the fan runs under this setting, in seconds.
    pub fn seconds(&self) -> (secs: u64)
        ensures
            secs == self.hours() * 3600,
    {
        match self {
            Timer::Off => 0,
            Timer::T1 => 3600,
            Timer::T2 => 7200,
            Timer::T4 => 14400,
            Timer::T8 => 28800,
        }
    }

    /// The name under which the setting is reported and requested.
    pub fn name(&self) -> (name: &'static str)
        ensures
            name@ == self.label(),
    {
        match self {
            Timer::Off => "Off",
            Timer::T1 => "1 hr",
            Timer::T2 => "2 hr",
            Timer::T4 => "4 hr",
            Timer::T8 => "8 hr",
        }
    }

    /// The name of the setting in messages meant for a maintainer.
    pub fn short_name(&self) -> (name: &'static str)
        ensures
            name@ == self.short_label(),
    {
        match self {
            Timer::Off => "Off",
            Timer::T1 => "T1",
            Timer::T2 => "T2",
            Timer::T4 => "T4",
            Timer::T8 => "T8",
        }
    }
}

/// The presses of `key`, `n` of them, each followed by a pause.
pub open spec fn paused_presses(key: Key, n: int) -> Seq<Step>
    decreases n,
{
    if n <= 0 {
        Seq::empty()
    } else {
        paused_presses(key, n - 1).push(Step::Send(key)).push(Step::Pause(SIGNAL_DELAY))
    }
}

/// Appends `n` presses of `key` to `steps`, each followed by a pause.
fn push_presses(steps: &mut Vec<Step>, key: Key, n: u8)
    ensures
        final(steps)@ == old(steps)@ + paused_presses(key, n as int),
{
    let mut i: u8 = 0;
    while i < n
        invariant
            i <= n,
            steps@ == old(steps)@ + paused_presses(key, i as int),
        decreases n - i,
    {
        steps.push(Step::Send(key));
        steps.push(Step::Pause(SIGNAL_DELAY));
        i = i + 1;
    }
}

/// What the controller believes of the fan.
#[derive(Clone, Copy, Debug, PartialEq, Eq, Structural)]
pub struct Fan {
    pub power: bool,
    pub speed_lvl: Speed,
    /// The speed as it was last asked for, in percent.
    pub speed: u8,
    pub timer: Timer,
}

impl Fan {
    /// The state of a fan that was just turned on or off.
    pub open spec fn fresh(power: bool) -> Fan {
        Fan { power, speed_lvl: Speed::High, speed: 100, timer: Timer::Off }
    }

    /// The setting is the one that the percentage stands for, and no timer
    /// runs while the fan is off.
    pub open spec fn wf(self) -> bool {
        &&& Speed::of_percent(self.speed as int) == Some(self.speed_lvl)
        &&& !self.power ==> self.timer == Timer::Off
    }

    /// The state after the power is set.
    pub open spec fn powered(self, val: bool) -> Fan {
        if self.power == val {
            self
        } else {
            Fan::fresh(val)
        }
    }

    /// What is done to set the power.
    pub open spec fn power_steps(self, val: bool) -> Seq<Step> {
        if self.power == val {
            Seq::empty()
        } else {
            seq![Step::Send(Key::Power)]
        }
    }

    /// The state from which a speed is selected: a fan that is off is turned
    /// on first, unless the speed is zero.
    pub open spec fn awake(self, val: u8) -> Fan {
        if val > 0 {
            self.powered(true)
        } else {
            self
        }
    }

    /// The state after the speed is set to `val` percent.
    pub open spec fn at_speed(self, val: u8) -> Fan {
        Fan { speed_lvl: Speed::of_percent(val as int)->0, speed: val, ..self.awake(val) }
    }

    /// What is done to set the speed to `val` percent.
    pub open spec fn speed_steps(self, val: u8) -> Seq<Step> {
        let presses = paused_presses(
            Key::Speed,
            self.awake(val).speed_lvl.presses_to(Speed::of_percent(val as int)->0),
        );
        if !self.power && val > 0 {
            seq![Step::Send(Key::Power), Step::Pause(SIGNAL_DELAY)] + presses
        } else {
            presses
        }
    }

    /// The state after the timer is set.
    pub open spec fn at_timer(self, val: Timer) -> Fan {
        Fan { timer: val, ..self }
    }

    /// What is done to set the timer.
    pub open spec fn timer_steps(self, val: Timer) -> Seq<Step> {
        paused_presses(Key::Timer, self.timer.presses_to(val))
    }

    /// A fan that is off.
    pub fn new() -> (fan: Fan)
        ensures
            fan == Fan::fresh(false),
            fan.wf(),
    {
        Fan { power: false, speed_lvl: Speed::High, speed: 100, timer: Timer::Off }
    }

    /// Turns the fan on or off, if it is not so already.
    pub fn set_power(&mut self, val: bool) -> (steps: Vec<Step>)
        ensures
            *final(self) == old(self).powered(val),
            steps@ == old(self).power_steps(val),
            old(self).wf() ==> final(self).wf(),
    {
        match (self.power, val) {
            (false, true) => self.power_on(),
            (true, false) => self.power_off(),
            _ => Vec::new(),
        }
    }

    /// Turns the fan on if it is off, and off if it is on.
    pub fn toggle_power(&mut self) -> (steps: Vec<Step>)
        ensures
            *final(self) == Fan::fresh(!old(self).power),
            steps@ == seq![Step::Send(Key::Power)],
            final(self).wf(),
    {
        let val = !self.power;
        self.set_power(val)
    }

    /// Notes that the fan was turned on or off by other means.
    pub fn reset(&mut self, power: bool)
        ensures
            *final(self) == Fan::fresh(power),
            final(self).wf(),
    {
        self.power = power;
        self.speed_lvl = Speed::High;
        self.speed = 100;
        self.timer = Timer::Off;
    }

    fn power_on(&mut self) -> (steps: Vec<Step>)
        ensures
            *final(self) == Fan::fresh(true),
            steps@ == seq![Step::Send(Key::Power)],
    {
        self.reset(true);
        vec![Step::Send(Key::Power)]
    }

    fn power_off(&mut self) -> (steps: Vec<Step>)
        ensures
            *final(self) == Fan::fresh(false),
            steps@ == seq![Step::Send(Key::Power)],
    {
        self.reset(false);
        vec![Step::Send(Key::Power)]
    }

    /// Sets the speed to `val` percent. A fan that is off is turned on first,
    /// unless `val` is zero.
    pub fn set_speed(&mut self, val: u8) -> (steps: Vec<Step>)
        requires
            val <= 100,
        ensures
            *final(self) == old(self).at_speed(val),
            steps@ == old(self).speed_steps(val),
            old(self).wf() ==> final(self).wf(),
    {
        let mut steps: Vec<Step> = Vec::new();
        if !self.power && val > 0 {
            steps = self.power_on();
            steps.push(Step::Pause(SIGNAL_DELAY));
        }
        if let Some(tgt_speed) = Speed::from_percent(val) {
            let n: u8 = self.speed_lvl.num_until_speed(tgt_speed);
            push_presses(&mut steps, Key::Speed, n);
            self.speed_lvl = tgt_speed;
            self.speed = val;
        }
        steps
    }

    /// Sets the auto-off timer, which only a fan that is on has. Returns the
    /// setting with what is to be done.
    pub fn set_timer(&mut self, val: Timer) -> (res: Result<(Timer, Vec<Step>), Failure>)
        ensures
            match res {
                Ok((timer, steps)) => {
                    &&& old(self).power
                    &&& timer == val
                    &&& *final(self) == old(self).at_timer(val)
                    &&& steps@ == old(self).timer_steps(val)
                },
                Err(e) => {
                    &&& !old(self).power
                    &&& e == Failure::InvalidState
                    &&& *final(self) == *old(self)
                },
            },
            old(self).wf() ==> final(self).wf(),
    {
        if !self.power {
            return Err(Failure::InvalidState);
        }
        let mut steps: Vec<Step> = Vec::new();
        let n: u8 = self.timer.num_until_time(val);
        push_presses(&mut steps, Key::Timer, n);
        self.timer = val;
        Ok((self.timer, steps))
    }
}

/// A higher percentage never stands for a slower setting, every percentage up
/// to one hundred stands for one, and none above does.
pub proof fn law_percentages_are_ordered(a: int, b: int)
    requires
        a <= b,
    ensures
        Speed::of_percent(b) is Some <==> b <= 100,
        b <= 100 ==> Speed::of_percent(a) is Some && Speed::of_percent(a)->0.rank()
            <= Speed::of_percent(b)->0.rank(),
{
}

/// Up to a third is slow, up to two thirds is medium, and the rest up to one
/// hundred is fast.
pub proof fn law_percentages_fall_into_thirds(pct: int)
    ensures
        Speed::of_percent(pct) == Some(Speed::Low) <==> pct <= 33,
        Speed::of_percent(pct) == Some(Speed::Med) <==> 33 < pct <= 67,
        Speed::of_percent(pct) == Some(Speed::High) <==> 67 < pct <= 100,
        Speed::of_percent(pct) is None <==> 100 < pct,
{
}

/// The speed key goes round: no press stays, one press goes down one setting
/// or from the lowest to the highest, and presses add up, fewer than three
/// being enough.
pub proof fn law_speed_presses_go_round(a: Speed, b: Speed, c: Speed)
    ensures
        0 <= a.presses_to(b) < 3,
        a.presses_to(b) == 0 <==> a == b,
        a.presses_to(b) == 1 <==> {
            ||| a == Speed::High && b == Speed::Med
            ||| a == Speed::Med && b == Speed::Low
            ||| a == Speed::Low && b == Speed::High
        },
        (a.presses_to(b) + b.presses_to(c)) % 3 == a.presses_to(c),
{
}

/// The timer key goes round: no press stays, one press goes up one setting or
/// from the longest to "off", and presses add up, fewer than five being
/// enough.
pub proof fn law_timer_presses_go_round(a: Timer, b: Timer, c: Timer)
    ensures
        0 <= a.presses_to(b) < 5,
        a.presses_to(b) == 0 <==> a == b,
        a.presses_to(b) == 1 <==> {
            ||| a == Timer::Off && b == Timer::T1
            ||| a == Timer::T1 && b == Timer::T2
            ||| a == Timer::T2 && b == Timer::T4
            ||| a == Timer::T4 && b == Timer::T8
            ||| a == Timer::T8 && b == Timer::Off
        },
        (a.presses_to(b) + b.presses_to(c)) % 5 == a.presses_to(c),
{
}

/// A timer that is off runs for no time, the shortest for an hour, and one
/// press up from it, and again, for twice as long.
pub proof fn law_timers_double(a: Timer, b: Timer)
    ensures
        a.hours() == 0 <==> a == Timer::Off,
        a == Timer::T1 ==> a.hours() == 1,
        a != Timer::Off && b != Timer::Off && a.presses_to(b) == 1 ==> b.hours() == 2 * a.hours(),
{
}

/// The names of the settings.
pub proof fn law_settings_have_their_names(speed: Speed, timer: Timer)
    ensures
        speed == Speed::Low ==> speed.label() == "Low"@,
        speed == Speed::Med ==> speed.label() == "Med"@,
        speed == Speed::High ==> speed.label() == "High"@,
        timer == Timer::Off ==> timer.label() == "Off"@ && timer.short_label() == "Off"@,
        timer == Timer::T1 ==> timer.label() == "1 hr"@ && timer.short_label() == "T1"@,
        timer == Timer::T2 ==> timer.label() == "2 hr"@ && timer.short_label() == "T2"@,
        timer == Timer::T4 ==> timer.label() == "4 hr"@ && timer.short_label() == "T4"@,
        timer == Timer::T8 ==> timer.label() == "8 hr"@ && timer.short_label() == "T8"@,
{
}

/// `steps` are presses of `key`, `n` of them, from position `start` on, each
/// with a tenth of a second after it.
pub open spec fn presses_from(steps: Seq<Step>, start: int, key: Key, n: int) -> bool {
    &&& steps.len() == start + 2 * n
    &&& forall|i: int|
        #![trigger steps[i]]
        start <= i < steps.len() ==> steps[i] == (if (i - start) % 2 == 0 {
            Step::Send(key)
        } else {
            Step::Pause(100)
        })
}

proof fn lemma_paused_presses(key: Key, n: int)
    requires
        0 <= n,
    ensures
        presses_from(paused_presses(key, n), 0, key, n),
    decreases n,
{
    if n > 0 {
        lemma_paused_presses(key, n - 1);
    }
}

/// A fan that was just turned on or off is at full speed and has no timer.
pub proof fn law_fresh_fan(power: bool)
    ensures
        Fan::fresh(power).power == power,
        Fan::fresh(power).speed_lvl == Speed::High,
        Fan::fresh(power).speed == 100,
        Fan::fresh(power).timer == Timer::Off,
{
}

/// The power is as was asked for. A fan that was so already is left alone, and
/// any other forgets its settings upon a single press of the power key.
pub proof fn law_power_is_as_asked(fan: Fan, val: bool)
    ensures
        fan.powered(val).power == val,
        fan.power == val ==> fan.powered(val) == fan && fan.power_steps(val).len() == 0,
        fan.power != val ==> {
            &&& fan.powered(val).speed_lvl == Speed::High
            &&& fan.powered(val).speed == 100
            &&& fan.powered(val).timer == Timer::Off
            &&& fan.power_steps(val).len() == 1
            &&& fan.power_steps(val)[0] == Step::Send(Key::Power)
        },
{
}

/// The speed is as was asked for, and nothing else changes on a fan that is
/// on. A fan that is off is turned on first, unless the speed is zero, and
/// then starts at full speed. The speed key is pressed just as often as it
/// takes from where the fan is.
pub proof fn law_speed_is_as_asked(fan: Fan, val: u8)
    requires
        val <= 100,
    ensures
        fan.at_speed(val).speed == val,
        Some(fan.at_speed(val).speed_lvl) == Speed::of_percent(val as int),
        fan.at_speed(val).power == (fan.power || val > 0),
        fan.power || val == 0 ==> {
            &&& fan.at_speed(val).timer == fan.timer
            &&& presses_from(
                fan.speed_steps(val),
                0,
                Key::Speed,
                fan.speed_lvl.presses_to(fan.at_speed(val).speed_lvl),
            )
        },
        !fan.power && val > 0 ==> {
            &&& fan.at_speed(val).timer == Timer::Off
            &&& fan.speed_steps(val)[0] == Step::Send(Key::Power)
            &&& fan.speed_steps(val)[1] == Step::Pause(100)
            &&& presses_from(
                fan.speed_steps(val),
                2,
                Key::Speed,
                Speed::High.presses_to(fan.at_speed(val).speed_lvl),
            )
        },
{
    let n = fan.awake(val).speed_lvl.presses_to(Speed::of_percent(val as int)->0);
    lemma_paused_presses(Key::Speed, n);
}

/// The timer is as was asked for, nothing else changes, and the timer key is
/// pressed just as often as it takes.
pub proof fn law_timer_is_as_asked(fan: Fan, val: Timer)
    ensures
        fan.at_timer(val).timer == val,
        fan.at_timer(val).power == fan.power,
        fan.at_timer(val).speed_lvl == fan.speed_lvl,
        fan.at_timer(val).speed == fan.speed,
        presses_from(fan.timer_steps(val), 0, Key::Timer, fan.timer.presses_to(val)),
{
    lemma_paused_presses(Key::Timer, fan.timer.presses_to(val));
}

} // verus!
