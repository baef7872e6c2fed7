use fan_remote::app::{App, SignalType};
use fan_remote::buttons::{rest_after, Button};
use fan_remote::countdown::Countdown;
use fan_remote::error::Failure;
use fan_remote::ota::{check_size, update_report, Download, Event, Stage, UriParts};
use fan_remote::reaction::Notice;
use fan_remote::state::{Fan, Key, Speed, Step, Timer};
use fan_remote::wifi::{reconnect_step, Reconnecting, WifiStage};

const INFO: u64 = 400;

fn app() -> App {
    App::new(&[0; 6])
}

fn on() -> Fan {
    let mut fan = Fan::new();
    fan.set_power(true);
    fan
}

fn said(notices: &[Notice]) -> Vec<String> {
    notices.iter().map(|n| format!("{n:?}")).collect()
}

fn one_press(key: Key) -> Vec<Step> {
    vec![Step::Send(key), Step::Pause(100)]
}

#[test]
fn buttons_are_logged() {
    let texts = [
        (Button::Power, "Power button pressed!"),
        (Button::Speed, "Speed button pressed!"),
        (Button::Timer, "Timer button pressed!"),
    ];
    for (button, text) in texts {
        match app().button_log(button, true) {
            Some(SignalType::Log(msg)) => assert_eq!(msg, text),
            _ => panic!("nothing said"),
        }
        assert!(app().button_log(button, false).is_none());
    }
}

#[test]
fn power_button() {
    let mut fan = Fan::new();
    let reaction = app().button_step(&mut fan, Button::Power, true).unwrap();
    assert_eq!(reaction.steps, vec![Step::Send(Key::Power)]);
    assert_eq!(said(&reaction.notices), ["Signal(Publish)"]);
    assert!(fan.power);
}

#[test]
fn speed_button_goes_down() {
    let mut fan = on();
    for (percent, lvl) in [(67, Speed::Med), (33, Speed::Low), (100, Speed::High)] {
        let reaction = app().button_step(&mut fan, Button::Speed, true).unwrap();
        assert_eq!(reaction.steps, one_press(Key::Speed));
        assert_eq!(said(&reaction.notices), ["Signal(Publish)"]);
        assert_eq!((fan.speed, fan.speed_lvl), (percent, lvl));
    }
}

#[test]
fn speed_button_turns_the_fan_on() {
    let mut fan = Fan::new();
    let reaction = app().button_step(&mut fan, Button::Speed, true).unwrap();
    assert_eq!(reaction.steps.len(), 4);
    assert_eq!(reaction.steps[0], Step::Send(Key::Power));
    assert!(fan.power);
    assert_eq!(fan.speed_lvl, Speed::Med);
}

#[test]
fn timer_button_goes_up() {
    let mut fan = on();
    for timer in [Timer::T1, Timer::T2, Timer::T4, Timer::T8, Timer::Off] {
        let reaction = app().button_step(&mut fan, Button::Timer, true).unwrap();
        assert_eq!(reaction.steps, one_press(Key::Timer));
        assert_eq!(
            said(&reaction.notices),
            [format!("StartTimer({timer:?})"), "Signal(Publish)".to_string()]
        );
        assert_eq!(fan.timer, timer);
    }
}

#[test]
fn timer_button_does_nothing_when_off() {
    let mut fan = Fan::new();
    assert!(app().button_step(&mut fan, Button::Timer, true).is_none());
    assert_eq!(fan, Fan::new());
}

#[test]
fn released_buttons_only_publish() {
    for button in [Button::Power, Button::Speed, Button::Timer] {
        let mut fan = Fan::new();
        let reaction = app().button_step(&mut fan, button, false).unwrap();
        assert!(reaction.steps.is_empty());
        assert_eq!(said(&reaction.notices), ["Signal(Publish)"]);
        assert_eq!(fan, Fan::new());
    }
}

#[test]
fn countdown_runs_and_ends() {
    let mut countdown = Countdown::new();
    assert_eq!(countdown.seconds(), None);
    match countdown.on_setting(Timer::T2) {
        Some(SignalType::Log(msg)) => assert_eq!(msg, "Starting new fan timer: T2"),
        _ => panic!("nothing said"),
    }
    assert_eq!(countdown, Countdown::Running(Timer::T2));
    assert_eq!(countdown.seconds(), Some(7200));
    let mut fan = on();
    let reaction = countdown.on_expired(&mut fan);
    assert!(reaction.steps.is_empty());
    assert_eq!(said(&reaction.notices), ["Signal(Publish)"]);
    assert_eq!(fan, Fan::new());
    assert_eq!(countdown, Countdown::Idle);
}

#[test]
fn countdown_is_replaced_and_stopped() {
    let mut countdown = Countdown::new();
    countdown.on_setting(Timer::T8);
    assert!(countdown.on_setting(Timer::T1).is_some());
    assert_eq!(countdown.seconds(), Some(3600));
    assert!(countdown.on_setting(Timer::Off).is_none());
    assert_eq!(countdown, Countdown::Idle);
    assert!(countdown.on_setting(Timer::Off).is_none());
}

#[test]
fn time_follows_the_fan() {
    let mut fan = on();
    let mut countdown = Countdown::new();
    for _ in 0..7 {
        let reaction = app().button_step(&mut fan, Button::Timer, true).unwrap();
        for notice in reaction.notices {
            if let Notice::StartTimer(timer) = notice {
                countdown.on_setting(timer);
            }
        }
        match countdown {
            Countdown::Idle => assert_eq!(fan.timer, Timer::Off),
            Countdown::Running(timer) => assert_eq!(fan.timer, timer),
        }
    }
    assert_eq!(countdown, Countdown::Running(Timer::T2));
}

fn at_response() -> Download {
    let mut download = Download::new("http://host.example:8080/fw.bin?v=2");
    assert_eq!(download.stage, Stage::Resolve);
    download.on_event(Event::Succeeded, INFO);
    assert_eq!(download.stage, Stage::Request);
    download.on_event(Event::Succeeded, INFO);
    assert_eq!(download.stage, Stage::Response);
    download
}

fn head(code: u16, content_len: Option<u64>) -> Stage {
    let mut download = at_response();
    download.on_event(Event::Head { code, content_len }, INFO);
    download.stage
}

#[test]
fn address_is_taken_apart() {
    let download = Download::new("http://user@host.example:8080/fw.bin?v=2");
    assert_eq!(download.parts.host.as_deref(), Some("host.example"));
    assert_eq!(download.parts.port, Some(8080));
    assert_eq!(download.parts.path.as_deref(), Some("/fw.bin?v=2"));
    let bare = Download::new("http://host:1");
    assert_eq!(bare.parts.path.as_deref(), Some("/"));
}

#[test]
fn bad_addresses() {
    assert_eq!(Download::new("").stage, Stage::Done(Err(Failure::Fail)));
    assert_eq!(Download::new("http://a b/").stage, Stage::Done(Err(Failure::Fail)));
    assert_eq!(Download::new("/fw.bin").stage, Stage::Fault);
    assert_eq!(Download::from_parts(None).stage, Stage::Done(Err(Failure::Fail)));
    let nowhere = UriParts { host: None, port: Some(80), path: Some("/".to_string()) };
    assert_eq!(Download::from_parts(Some(nowhere)).stage, Stage::Fault);
}

#[test]
fn address_without_port_or_path() {
    for uri in ["http://host/fw.bin", "host:80"] {
        let mut download = Download::new(uri);
        assert_eq!(download.stage, Stage::Resolve);
        download.on_event(Event::Succeeded, INFO);
        assert_eq!(download.stage, Stage::Fault);
        let mut download = Download::new(uri);
        download.on_event(Event::Failed(Failure::Fail), INFO);
        assert_eq!(download.stage, Stage::Done(Err(Failure::NotFound)));
    }
}

#[test]
fn network_failures() {
    let mut download = Download::new("http://host:80/");
    download.on_event(Event::Succeeded, INFO);
    download.on_event(Event::Failed(Failure::Platform(5)), INFO);
    assert_eq!(download.stage, Stage::Done(Err(Failure::Fail)));
    let mut download = at_response();
    download.on_event(Event::Failed(Failure::Platform(5)), INFO);
    assert_eq!(download.stage, Stage::Done(Err(Failure::Fail)));
}

#[test]
fn responses_are_checked() {
    assert_eq!(head(404, Some(100_000)), Stage::Done(Err(Failure::InvalidResponse)));
    assert_eq!(head(204, Some(100_000)), Stage::Done(Err(Failure::InvalidResponse)));
    assert_eq!(head(200, None), Stage::Done(Err(Failure::ImageInvalid)));
    assert_eq!(head(200, Some(INFO + 1024)), Stage::Done(Err(Failure::ImageInvalid)));
    assert_eq!(head(200, Some(INFO + 1025)), Stage::Begin { size: INFO + 1025 });
    assert_eq!(head(200, Some(0x1f0000)), Stage::Begin { size: 0x1f0000 });
    assert_eq!(head(200, Some(0x1f0001)), Stage::Done(Err(Failure::ImageInvalid)));
}

#[test]
fn sizes() {
    assert_eq!(check_size(1024, 0), Err(Failure::ImageInvalid));
    assert_eq!(check_size(1025, 0), Ok(()));
    assert_eq!(check_size(2031616, 0), Ok(()));
    assert_eq!(check_size(2031617, 0), Err(Failure::ImageInvalid));
}

#[test]
fn image_is_written() {
    let mut download = at_response();
    download.on_event(Event::Head { code: 200, content_len: Some(90_000) }, INFO);
    download.on_event(Event::Succeeded, INFO);
    assert_eq!(download.stage, Stage::Copy { size: 90_000 });
    download.on_event(Event::Succeeded, INFO);
    assert_eq!(download.stage, Stage::Complete);
    download.on_event(Event::Succeeded, INFO);
    assert_eq!(download.stage, Stage::Done(Ok(())));
}

#[test]
fn writing_can_fail() {
    let mut download = at_response();
    download.on_event(Event::Head { code: 200, content_len: Some(90_000) }, INFO);
    let begin = download.stage;
    download.on_event(Event::Failed(Failure::Platform(7)), INFO);
    assert_eq!(download.stage, Stage::Done(Err(Failure::Platform(7))));
    download.stage = begin;
    download.on_event(Event::Succeeded, INFO);
    download.on_event(Event::Failed(Failure::Fail), INFO);
    assert_eq!(download.stage, Stage::Abort);
    download.on_event(Event::Failed(Failure::Platform(8)), INFO);
    assert_eq!(download.stage, Stage::Done(Err(Failure::Platform(8))));
    download.stage = Stage::Abort;
    download.on_event(Event::Succeeded, INFO);
    assert_eq!(download.stage, Stage::Done(Ok(())));
    download.stage = Stage::Complete;
    download.on_event(Event::Failed(Failure::Platform(9)), INFO);
    assert_eq!(download.stage, Stage::Done(Err(Failure::Platform(9))));
}

#[test]
fn updates_are_reported() {
    assert_eq!(
        said(&update_report(Ok(()))),
        ["Signal(Log(\"OTA download successful! rebooting to new image...\"))", "Restart"]
    );
    assert_eq!(said(&update_report(Err(Failure::Fail))), ["Signal(Log(\"OTA failed!\"))"]);
}

#[test]
fn network_comes_up() {
    let mut stage = WifiStage::Configure;
    for expected in [WifiStage::Start, WifiStage::Connect, WifiStage::WaitUp, WifiStage::Up] {
        stage = stage.next(Ok(()));
        assert_eq!(stage, expected);
    }
}

#[test]
fn connecting_is_retried() {
    let mut stage = WifiStage::Connect;
    for _ in 0..10 {
        stage = stage.next(Err(Failure::Platform(1)));
        assert_eq!(stage, WifiStage::Stop);
        stage = stage.next(Ok(()));
        assert_eq!(stage, WifiStage::Start);
        stage = stage.next(Ok(()));
        assert_eq!(stage, WifiStage::Connect);
    }
}

#[test]
fn other_network_failures_are_final() {
    let stages =
        [WifiStage::Configure, WifiStage::Start, WifiStage::Stop, WifiStage::WaitUp];
    for stage in stages {
        assert_eq!(
            stage.next(Err(Failure::Platform(3))),
            WifiStage::Failed(Failure::Platform(3))
        );
    }
}

#[test]
fn reconnecting_goes_on_until_it_works() {
    for code in 0..20 {
        assert_eq!(reconnect_step(Err(Failure::Platform(code))), Reconnecting::Again);
    }
    assert_eq!(reconnect_step(Ok(())), Reconnecting::Done);
}

#[test]
fn buttons_rest_after_reactions() {
    for fan in [Fan::new(), on()] {
        for button in [Button::Power, Button::Speed, Button::Timer] {
            for high in [false, true] {
                let mut state = fan;
                let reaction = app().button_step(&mut state, button, high);
                let idle = high && button == Button::Timer && !fan.power;
                assert_eq!(rest_after(&reaction), if idle { None } else { Some(200) });
            }
        }
    }
}
