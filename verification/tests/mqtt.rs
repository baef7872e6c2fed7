use fan_remote::app::{App, SignalType};
use fan_remote::json::Json;
use fan_remote::mqtt::{
    decode_request, serve, Command, Decoded, MqttEvent, Setting, Subject, Turn,
};
use fan_remote::reaction::{Notice, Reaction};
use fan_remote::state::{Fan, Key, Speed, Step, Timer};

const BASE: &str = "esp/esp32c6_0102030a0bff";

fn app() -> App {
    App::new(&[1, 2, 3, 10, 11, 255])
}

fn on() -> Fan {
    let mut fan = Fan::new();
    fan.set_power(true);
    fan
}

fn received(topic: &str, data: &[u8]) -> MqttEvent {
    MqttEvent::Received { topic: Some(format!("{BASE}{topic}")), data: data.to_vec() }
}

fn go(turn: Turn) -> Reaction {
    match turn {
        Turn::Go(reaction) => reaction,
        _ => panic!("no reaction"),
    }
}

fn run(fan: &mut Fan, topic: &str, data: &str) -> Reaction {
    go(app().mqtt_recv_step(fan, &received(topic, data.as_bytes())))
}

fn said(notices: &[Notice]) -> Vec<String> {
    notices.iter().map(|n| format!("{n:?}")).collect()
}

#[test]
fn topics_with_and_without_base() {
    let app = app();
    let subjects = [
        ("/fan/set", Subject::Request(Setting::Power)),
        ("/fan/speed/set", Subject::Request(Setting::Speed)),
        ("/fan/timer/set", Subject::Request(Setting::Timer)),
        ("/admin/reboot", Subject::Reboot),
        ("/admin/ota", Subject::Update),
        ("homeassistant/status", Subject::HomeAssistant),
        ("/fan/state", Subject::Unknown),
        ("", Subject::Unknown),
    ];
    for (topic, subject) in subjects {
        assert_eq!(app.subject(&format!("{BASE}{topic}")), subject);
        assert_eq!(app.subject(topic), subject);
    }
    assert_eq!(app.subject("esp/esp32c6_000000000000/fan/set"), Subject::Unknown);
    assert_eq!(app.subject(&format!("{BASE}{BASE}/fan/set")), Subject::Unknown);
}

#[test]
fn power_request() {
    let mut fan = Fan::new();
    let reaction = run(&mut fan, "/fan/set", "{ \"power\": true }");
    assert_eq!(reaction.steps, vec![Step::Send(Key::Power)]);
    assert_eq!(said(&reaction.notices), ["Signal(Publish)"]);
    assert!(fan.power);
    let again = run(&mut fan, "/fan/set", "{\"power\":true,\"speed\":3}");
    assert!(again.steps.is_empty());
    assert_eq!(said(&again.notices), ["Signal(Publish)"]);
}

#[test]
fn speed_request() {
    let mut fan = Fan::new();
    let reaction = run(&mut fan, "/fan/speed/set", "{ \"speed\": 67 }");
    assert_eq!(
        reaction.steps,
        vec![
            Step::Send(Key::Power),
            Step::Pause(100),
            Step::Send(Key::Speed),
            Step::Pause(100),
        ]
    );
    assert_eq!(said(&reaction.notices), ["Signal(Publish)"]);
    assert_eq!((fan.power, fan.speed, fan.speed_lvl), (true, 67, Speed::Med));
}

#[test]
fn speed_keeps_eight_bits() {
    let mut fan = on();
    run(&mut fan, "/fan/speed/set", "{\"speed\": 300}");
    assert_eq!(fan.speed, 44);
    run(&mut fan, "/fan/speed/set", "{\"speed\": 18446744073709551360}");
    assert_eq!(fan.speed, 0);
}

#[test]
fn timer_request() {
    let mut fan = on();
    let reaction = run(&mut fan, "/fan/timer/set", "{ \"timer\": \"2 hr\" }");
    assert_eq!(reaction.steps.len(), 4);
    assert_eq!(said(&reaction.notices), ["Signal(Publish)", "StartTimer(T2)"]);
    assert_eq!(fan.timer, Timer::T2);
}

#[test]
fn timer_request_as_object() {
    let mut fan = on();
    let reaction = run(&mut fan, "/fan/timer/set", "{\"timer\": {\"8 hr\": null}}");
    assert_eq!(said(&reaction.notices), ["Signal(Publish)", "StartTimer(T8)"]);
    for data in ["{\"timer\": {\"8 hr\": 1}}", "{\"timer\": {}}", "{\"timer\": {\"8 hr\": null, \"x\": null}}"] {
        let turn = app().mqtt_recv_step(&mut fan, &received("/fan/timer/set", data.as_bytes()));
        assert!(matches!(turn, Turn::Fault));
    }
}

#[test]
fn timer_request_is_refused_when_off() {
    let mut fan = Fan::new();
    let reaction = run(&mut fan, "/fan/timer/set", "{ \"timer\": \"1 hr\" }");
    assert!(reaction.steps.is_empty());
    assert_eq!(said(&reaction.notices), ["Signal(Publish)"]);
    assert_eq!(fan, Fan::new());
}

#[test]
fn malformed_requests_are_ignored() {
    let mut fan = on();
    for topic in ["/fan/set", "/fan/speed/set", "/fan/timer/set"] {
        for data in ["", "{", "{\"power\": tru}", "power"] {
            let reaction = run(&mut fan, topic, data);
            assert!(reaction.steps.is_empty() && reaction.notices.is_empty());
        }
    }
    let reaction = run(&mut fan, "/nowhere", "{}");
    assert!(reaction.steps.is_empty() && reaction.notices.is_empty());
    assert_eq!(fan, on());
}

#[test]
fn requests_without_a_value_end_the_task() {
    let mut fan = on();
    let ends = [
        ("/fan/set", "{}"),
        ("/fan/set", "{\"power\": 1}"),
        ("/fan/set", "{\"power\": \"true\"}"),
        ("/fan/set", "[true]"),
        ("/fan/set", "true"),
        ("/fan/speed/set", "{\"power\": true}"),
        ("/fan/speed/set", "{\"speed\": -1}"),
        ("/fan/speed/set", "{\"speed\": 50.0}"),
        ("/fan/speed/set", "{\"speed\": \"50\"}"),
        ("/fan/speed/set", "null"),
    ];
    for (topic, data) in ends {
        let turn = app().mqtt_recv_step(&mut fan, &received(topic, data.as_bytes()));
        assert!(matches!(turn, Turn::End), "{topic} {data}");
    }
    assert_eq!(fan, on());
}

#[test]
fn impossible_requests_are_faults() {
    let mut fan = on();
    let faults: [(&str, &[u8]); 6] = [
        ("/fan/speed/set", b"{\"speed\": 101}"),
        ("/fan/speed/set", b"{\"speed\": 511}"),
        ("/fan/timer/set", b"{\"timer\": \"3 hr\"}"),
        ("/fan/timer/set", b"{\"timer\": \"T1\"}"),
        ("/fan/timer/set", b"{}"),
        ("/admin/ota", &[0xC3, 0x28]),
    ];
    for (topic, data) in faults {
        let turn = app().mqtt_recv_step(&mut fan, &received(topic, data));
        assert!(matches!(turn, Turn::Fault), "{topic} {data:?}");
    }
    assert_eq!(fan, on());
}

#[test]
fn admin_requests() {
    let mut fan = on();
    let reboot = run(&mut fan, "/admin/reboot", "");
    assert_eq!(said(&reboot.notices), ["Restart"]);
    let update = run(&mut fan, "/admin/ota", "http://hôst:8080/fw.bin");
    assert_eq!(said(&update.notices), ["StartUpdate(\"http://hôst:8080/fw.bin\")"]);
    assert_eq!(fan, on());
}

#[test]
fn connection_events() {
    let app = app();
    let mut fan = on();
    let connected = go(app.mqtt_recv_step(&mut fan, &MqttEvent::Connected));
    assert_eq!(said(&connected.notices), ["Signal(Discover)", "Signal(Resubscribe)"]);
    let dropped = go(app.mqtt_recv_step(&mut fan, &MqttEvent::Disconnected));
    assert_eq!(said(&dropped.notices), ["Reconnect"]);
    assert!(go(app.mqtt_recv_step(&mut fan, &MqttEvent::Other)).notices.is_empty());
    let part = MqttEvent::Received { topic: None, data: vec![1] };
    assert!(go(app.mqtt_recv_step(&mut fan, &part)).notices.is_empty());
    let status = MqttEvent::Received {
        topic: Some("homeassistant/status".to_string()),
        data: b"online".to_vec(),
    };
    assert_eq!(said(&go(app.mqtt_recv_step(&mut fan, &status)).notices), ["Signal(Publish)"]);
    assert_eq!(fan, on());
}

#[test]
fn requests_from_json_values() {
    let number = Json::Number(Some(33));
    assert!(matches!(
        decode_request(Setting::Speed, Some(&number)),
        Decoded::Run(Command::SetSpeed(33))
    ));
    assert!(matches!(decode_request(Setting::Power, Some(&number)), Decoded::End));
    assert!(matches!(decode_request(Setting::Timer, Some(&Json::Array)), Decoded::Fault));
    assert!(matches!(decode_request(Setting::Power, None), Decoded::Ignore));
    assert!(matches!(decode_request(Setting::Speed, Some(&Json::Number(None))), Decoded::End));
    assert!(matches!(decode_request(Setting::Power, Some(&Json::Null)), Decoded::End));
}

#[test]
fn repeated_requests_send_nothing() {
    let mut fan = Fan::new();
    for _ in 0..2 {
        serve(&mut fan, Command::SetSpeed(40));
        serve(&mut fan, Command::SetTimer(Timer::T4));
        assert!(serve(&mut fan, Command::SetPower(true)).steps.is_empty());
        assert!(serve(&mut fan, Command::SetSpeed(40)).steps.is_empty());
        assert!(serve(&mut fan, Command::SetTimer(Timer::T4)).steps.is_empty());
    }
}

#[test]
fn timer_names_read_back() {
    for timer in [Timer::Off, Timer::T1, Timer::T2, Timer::T4, Timer::T8] {
        assert_eq!(Timer::from_name(timer.name()), Some(timer));
        assert_eq!(Timer::from_json(&Json::Text(timer.name().to_string())), Some(timer));
    }
    assert_eq!(Timer::from_name("off"), None);
    assert_eq!(Timer::from_name("1 hr "), None);
    assert_eq!(Timer::from_name(""), None);
}

#[test]
fn every_started_timer_is_remembered() {
    let mut fan = on();
    for timer in [Timer::T8, Timer::Off, Timer::T1] {
        let reaction = serve(&mut fan, Command::SetTimer(timer));
        assert!(matches!(reaction.notices[1], Notice::StartTimer(t) if t == timer));
        assert!(matches!(reaction.notices[0], Notice::Signal(SignalType::Publish)));
        assert_eq!(fan.timer, timer);
    }
}
