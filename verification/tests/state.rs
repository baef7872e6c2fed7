use fan_remote::buttons::Button;
use fan_remote::error::Failure;
use fan_remote::state::{Fan, Key, Speed, Step, Timer, SIGNAL_DELAY};

const SPEEDS: [Speed; 3] = [Speed::Low, Speed::Med, Speed::High];
const TIMERS: [Timer; 5] = [Timer::Off, Timer::T1, Timer::T2, Timer::T4, Timer::T8];

/// A fan that does what its remote control tells it.
struct Device {
    power: bool,
    speed: usize,
    timer: usize,
}

impl Device {
    fn press(&mut self, key: Key) {
        match key {
            Key::Power => {
                self.power = !self.power;
                self.speed = 2;
                self.timer = 0;
            }
            Key::Speed if self.power => self.speed = (self.speed + 2) % 3,
            Key::Timer if self.power => self.timer = (self.timer + 1) % 5,
            _ => {}
        }
    }

    fn take(&mut self, steps: &[Step]) {
        for step in steps {
            if let Step::Send(key) = step {
                self.press(*key);
            }
        }
    }

    fn agrees_with(&self, fan: &Fan) -> bool {
        self.power == fan.power
            && (!fan.power
                || (SPEEDS[self.speed] == fan.speed_lvl && TIMERS[self.timer] == fan.timer))
    }
}

fn presses(key: Key, n: usize) -> Vec<Step> {
    let mut steps = Vec::new();
    for _ in 0..n {
        steps.push(Step::Send(key));
        steps.push(Step::Pause(100));
    }
    steps
}

#[test]
fn new_fan_is_off() {
    let fan = Fan::new();
    assert!(!fan.power);
    assert_eq!(fan.speed_lvl, Speed::High);
    assert_eq!(fan.speed, 100);
    assert_eq!(fan.timer, Timer::Off);
}

#[test]
fn percent_to_speed() {
    assert_eq!(Speed::from_percent(0), Some(Speed::Low));
    assert_eq!(Speed::from_percent(33), Some(Speed::Low));
    assert_eq!(Speed::from_percent(34), Some(Speed::Med));
    assert_eq!(Speed::from_percent(67), Some(Speed::Med));
    assert_eq!(Speed::from_percent(68), Some(Speed::High));
    assert_eq!(Speed::from_percent(100), Some(Speed::High));
    assert_eq!(Speed::from_percent(101), None);
    assert_eq!(Speed::from_percent(255), None);
}

#[test]
fn percentages_are_ordered() {
    let mut presses = 0;
    for pct in 0..=100 {
        let n = Speed::from_percent(pct).unwrap().num_until_speed(Speed::Low);
        assert!(presses <= n);
        presses = n;
    }
    assert_eq!(presses, 2);
}

#[test]
fn speed_key_goes_down() {
    assert_eq!(Speed::High.num_until_speed(Speed::High), 0);
    assert_eq!(Speed::High.num_until_speed(Speed::Med), 1);
    assert_eq!(Speed::High.num_until_speed(Speed::Low), 2);
    assert_eq!(Speed::Low.num_until_speed(Speed::High), 1);
    assert_eq!(Speed::Low.num_until_speed(Speed::Med), 2);
    assert_eq!(Speed::Med.num_until_speed(Speed::Low), 1);
    for (i, from) in SPEEDS.iter().enumerate() {
        for (j, to) in SPEEDS.iter().enumerate() {
            let n = (i as i8 - j as i8).rem_euclid(3) as u8;
            assert_eq!(from.num_until_speed(*to), n);
        }
    }
}

#[test]
fn timer_key_goes_up() {
    assert_eq!(Timer::Off.num_until_time(Timer::T1), 1);
    assert_eq!(Timer::Off.num_until_time(Timer::T8), 4);
    assert_eq!(Timer::T8.num_until_time(Timer::Off), 1);
    assert_eq!(Timer::T4.num_until_time(Timer::T2), 4);
    for (i, from) in TIMERS.iter().enumerate() {
        for (j, to) in TIMERS.iter().enumerate() {
            let n = (j as i8 - i as i8).rem_euclid(5) as u8;
            assert_eq!(from.num_until_time(*to), n);
        }
    }
}

#[test]
fn names_and_hours() {
    assert_eq!(Speed::Med.name(), "Med");
    assert_eq!(Timer::T2.name(), "2 hr");
    assert_eq!(Timer::Off.name(), "Off");
    assert_eq!(Timer::T8.short_name(), "T8");
    assert_eq!(Timer::Off.seconds(), 0);
    assert_eq!(Timer::T1.seconds(), 60 * 60);
    assert_eq!(Timer::T4.seconds(), 4 * 60 * 60);
    assert_eq!(Timer::T8.seconds(), 8 * 60 * 60);
}

#[test]
fn power_is_sent_once() {
    let mut fan = Fan::new();
    assert_eq!(fan.set_power(true), vec![Step::Send(Key::Power)]);
    assert!(fan.power);
    assert_eq!(fan.set_power(true), vec![]);
    assert_eq!(fan.set_power(false), vec![Step::Send(Key::Power)]);
    assert_eq!(fan.set_power(false), vec![]);
    assert_eq!(fan, Fan::new());
}

#[test]
fn toggling_twice() {
    let mut fan = Fan::new();
    assert_eq!(fan.toggle_power(), vec![Step::Send(Key::Power)]);
    assert!(fan.power);
    assert_eq!(fan.toggle_power(), vec![Step::Send(Key::Power)]);
    assert_eq!(fan, Fan::new());
}

#[test]
fn reset_forgets_settings() {
    let mut fan = Fan { power: true, speed_lvl: Speed::Low, speed: 5, timer: Timer::T4 };
    fan.reset(true);
    assert_eq!(fan, Fan { power: true, speed_lvl: Speed::High, speed: 100, timer: Timer::Off });
    fan.reset(false);
    assert_eq!(fan, Fan::new());
}

#[test]
fn speed_turns_the_fan_on() {
    let mut fan = Fan::new();
    let steps = fan.set_speed(20);
    let mut expected = vec![Step::Send(Key::Power), Step::Pause(SIGNAL_DELAY)];
    expected.extend(presses(Key::Speed, 2));
    assert_eq!(steps, expected);
    assert_eq!(fan, Fan { power: true, speed_lvl: Speed::Low, speed: 20, timer: Timer::Off });
    assert_eq!(fan.set_speed(50), presses(Key::Speed, 2));
    assert_eq!(fan.speed_lvl, Speed::Med);
    assert_eq!(fan.set_speed(60), vec![]);
    assert_eq!(fan.speed, 60);
}

#[test]
fn speed_zero_leaves_the_fan_off() {
    let mut fan = Fan::new();
    assert_eq!(fan.set_speed(0), presses(Key::Speed, 2));
    assert_eq!(fan, Fan { power: false, speed_lvl: Speed::Low, speed: 0, timer: Timer::Off });
}

#[test]
fn timer_needs_power() {
    let mut fan = Fan::new();
    assert_eq!(fan.set_timer(Timer::T1), Err(Failure::InvalidState));
    assert_eq!(fan, Fan::new());
    fan.set_power(true);
    assert_eq!(fan.set_timer(Timer::T4), Ok((Timer::T4, presses(Key::Timer, 3))));
    assert_eq!(fan.timer, Timer::T4);
    assert_eq!(fan.set_timer(Timer::T1), Ok((Timer::T1, presses(Key::Timer, 3))));
    assert_eq!(fan.set_timer(Timer::T1), Ok((Timer::T1, vec![])));
    assert_eq!(fan.set_timer(Timer::Off), Ok((Timer::Off, presses(Key::Timer, 4))));
}

#[test]
fn memory_agrees_with_the_fan() {
    let mut fan = Fan::new();
    let mut device = Device { power: false, speed: 0, timer: 3 };
    let mut seed: u32 = 7;
    for _ in 0..5000 {
        seed = seed.wrapping_mul(1664525).wrapping_add(1013904223);
        let arg = (seed >> 8) as usize;
        match (seed >> 28) % 4 {
            0 => device.take(&fan.set_power(arg % 2 == 0)),
            1 => device.take(&fan.toggle_power()),
            2 => device.take(&fan.set_speed((arg % 101) as u8)),
            _ => {
                if let Ok((_, steps)) = fan.set_timer(TIMERS[arg % 5]) {
                    device.take(&steps);
                }
            }
        }
        assert!(device.agrees_with(&fan));
        assert_eq!(Speed::from_percent(fan.speed), Some(fan.speed_lvl));
        assert!(fan.power || fan.timer == Timer::Off);
    }
}

#[test]
fn memory_agrees_after_buttons() {
    let app = fan_remote::app::App::new(&[0; 6]);
    let mut fan = Fan::new();
    let mut device = Device { power: false, speed: 1, timer: 1 };
    let mut seed: u32 = 99;
    for _ in 0..2000 {
        seed = seed.wrapping_mul(1664525).wrapping_add(1013904223);
        let button = match (seed >> 24) % 3 {
            0 => Button::Power,
            1 => Button::Speed,
            _ => Button::Timer,
        };
        if let Some(reaction) = app.button_step(&mut fan, button, (seed >> 20) % 4 != 0) {
            device.take(&reaction.steps);
        }
        assert!(device.agrees_with(&fan));
    }
}

#[test]
fn keys_cycle() {
    for speed in 0..3 {
        for timer in 0..5 {
            let mut device = Device { power: true, speed, timer };
            for _ in 0..3 {
                device.press(Key::Speed);
            }
            for _ in 0..5 {
                device.press(Key::Timer);
            }
            assert_eq!((device.speed, device.timer), (speed, timer));
        }
    }
}
