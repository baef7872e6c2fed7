use fan_remote::app::{App, Config, SignalType};
use fan_remote::json::Json;
use fan_remote::mqtt::{serve, Command, Setting, Subject};
use fan_remote::discovery::Category;
use fan_remote::error::Failure;
use fan_remote::publish::{topic_for, Delivery, Outgoing, PublishStage, Publishing};
use fan_remote::state::{Fan, Speed, Timer};

fn app() -> App {
    App::new(&[0xDE, 0xAD, 0x00, 0x0F, 0xF0, 0x9a])
}

fn covers(filter: &str, topic: &str) -> bool {
    let filter: Vec<&str> = filter.split('/').collect();
    let topic: Vec<&str> = topic.split('/').collect();
    filter.len() == topic.len() && filter.iter().zip(&topic).all(|(f, t)| *f == "+" || f == t)
}

#[test]
fn identity() {
    let app = app();
    assert_eq!(app.client_id, "esp32c6_dead000ff09a");
    assert_eq!(app.base_topic, "esp/esp32c6_dead000ff09a");
    assert!(!app.base_topic.contains('+'));
    assert_ne!(app.base_topic, App::new(&[0xDE, 0xAD, 0x00, 0x0F, 0xF0, 0x9b]).base_topic);
}

#[test]
fn settings_are_empty_by_default() {
    let config = Config::default();
    assert_eq!(config.mqtt_host, "");
    assert_eq!(config.mqtt_user, "");
    assert_eq!(config.mqtt_pass, "");
    assert_eq!(config.wifi_ssid, "");
    assert_eq!(config.wifi_pass, "");
}

#[test]
fn state_is_reported() {
    let fan = Fan { power: true, speed_lvl: Speed::Med, speed: 50, timer: Timer::T4 };
    let message = app().state_message(&fan);
    assert_eq!(message.topic, "esp/esp32c6_dead000ff09a/fan/state");
    assert_eq!(message.qos, Delivery::ExactlyOnce);
    assert!(!message.retain);
    assert_eq!(
        message.payload,
        "{\"power\":true,\"speed\":50,\"speed_lvl\":\"Med\",\"status\":\"online\",\"timer\":\"4 hr\"}"
    );
}

#[test]
fn report_reads_back() {
    let fan = Fan { power: true, speed_lvl: Speed::Low, speed: 7, timer: Timer::T1 };
    let message = app().state_message(&fan);
    let value: serde_json::Value = serde_json::from_str(&message.payload).unwrap();
    assert_eq!(value["power"].as_bool(), Some(fan.power));
    assert_eq!(value["speed"].as_u64(), Some(fan.speed as u64));
    assert_eq!(value["speed_lvl"].as_str(), Some("Low"));
    assert_eq!(value["timer"].as_str(), Some("1 hr"));
    assert_eq!(value["status"].as_str(), Some("online"));
    assert_eq!(value.as_object().unwrap().len(), 5);
}

#[test]
fn report_restores_the_state() {
    let fan = Fan { power: true, speed_lvl: Speed::Low, speed: 7, timer: Timer::T1 };
    let mut other = Fan::new();
    serve(&mut other, Command::SetPower(fan.power));
    serve(&mut other, Command::SetSpeed(fan.speed));
    serve(&mut other, Command::SetTimer(fan.timer));
    assert_eq!(other, fan);
}

#[test]
fn log_is_published() {
    let message = app().log_message("hello".to_string());
    assert_eq!(message.topic, "esp/esp32c6_dead000ff09a/log");
    assert_eq!(message.qos, Delivery::AtLeastOnce);
    assert!(!message.retain);
    assert_eq!(message.payload, "hello");
}

#[test]
fn signals_are_followed() {
    let app = app();
    let fan = Fan::new();
    let signals = app.startup_signals();
    assert!(matches!(signals[0], SignalType::Discover));
    assert!(matches!(signals[1], SignalType::Publish));
    assert_eq!(signals.len(), 2);
    assert!(matches!(app.mqtt_send_step(&fan, SignalType::Discover), Outgoing::Announce));
    assert!(matches!(app.mqtt_send_step(&fan, SignalType::Resubscribe), Outgoing::Subscribe));
    match app.mqtt_send_step(&fan, app.signal_needs_publish()) {
        Outgoing::Send(p) => assert_eq!(p.payload, app.state_message(&fan).payload),
        _ => panic!("not published"),
    }
    match app.mqtt_send_step(&fan, app.mqtt_log("hi".to_string())) {
        Outgoing::Send(p) => assert_eq!((p.topic.as_str(), p.payload.as_str()), ("esp/esp32c6_dead000ff09a/log", "hi")),
        _ => panic!("not published"),
    }
}

#[test]
fn subscriptions_cover_what_is_served() {
    let app = app();
    let subs = app.subscribe_topics();
    assert!(subs.iter().all(|s| s.qos == Delivery::ExactlyOnce));
    let topics: Vec<String> = subs.into_iter().map(|s| s.topic).collect();
    assert_eq!(
        topics,
        [
            "homeassistant/status",
            "esp/esp32c6_dead000ff09a/+/set",
            "esp/esp32c6_dead000ff09a/+/+/set",
            "esp/esp32c6_dead000ff09a/admin/+",
        ]
    );
    for local in ["/fan/set", "/fan/speed/set", "/fan/timer/set", "/admin/reboot", "/admin/ota"] {
        let topic = format!("{}{local}", app.base_topic);
        assert_ne!(app.subject(&topic), Subject::Unknown);
        assert!(topics.iter().any(|f| covers(f, &topic)));
    }
    assert!(topics.iter().any(|f| covers(f, "homeassistant/status")));
}

#[test]
fn failed_subscriptions_are_tried_again() {
    let mut subscribing = app().subscribing();
    let mut made: Vec<String> = Vec::new();
    for failures in [0, 3, 1, 0] {
        let topic = subscribing.current().unwrap().topic.clone();
        assert_eq!(subscribing.current().unwrap().qos, Delivery::ExactlyOnce);
        for _ in 0..failures {
            assert_eq!(subscribing.on_outcome(Err(Failure::Platform(1))), Some(500));
            assert_eq!(subscribing.current().unwrap().topic, topic);
        }
        assert_eq!(subscribing.on_outcome(Ok(())), None);
        made.push(topic);
    }
    assert!(subscribing.current().is_none());
    let expected: Vec<String> =
        app().subscribe_topics().into_iter().map(|s| s.topic).collect();
    assert_eq!(made, expected);
}

const FAN: &str = "{\"uniq_id\":\"esp32c6_dead000ff09a_fan\"}";
const TIMER: &str = "{\"uniq_id\":\"esp32c6_dead000ff09a_timer\"}";

#[test]
fn fan_and_timer_are_announced() {
    let mut publishing = app().announcing("fan", FAN, "select", TIMER).unwrap();
    let mut topics: Vec<String> = Vec::new();
    while let Some(message) = publishing.current() {
        assert!(message.retain);
        assert_eq!(message.qos, Delivery::ExactlyOnce);
        topics.push(message.topic.clone());
        publishing.on_outcome(Ok(()));
    }
    assert_eq!(
        topics,
        [
            "homeassistant/fan/esp32c6_dead000ff09a_fan/config",
            "homeassistant/select/esp32c6_dead000ff09a_timer/config",
        ]
    );
    assert_eq!(publishing.stage, PublishStage::Done(Ok(())));
    assert_eq!(publishing.messages[0].payload, FAN);
    assert_eq!(publishing.messages[1].payload, TIMER);
}

#[test]
fn nothing_is_announced_without_both_names() {
    assert!(app().announcing("fan", "{}", "select", TIMER).is_none());
    assert!(app().announcing("fan", FAN, "select", "{}").is_none());
}

#[test]
fn first_failure_ends_publishing() {
    let mut publishing = app().announcing("fan", FAN, "select", TIMER).unwrap();
    publishing.on_outcome(Err(Failure::Platform(4)));
    assert_eq!(publishing.stage, PublishStage::Done(Err(Failure::Platform(4))));
    assert!(publishing.current().is_none());
    let mut publishing = app().announcing("fan", FAN, "select", TIMER).unwrap();
    publishing.on_outcome(Ok(()));
    assert_eq!(publishing.stage, PublishStage::Next(1));
    publishing.on_outcome(Err(Failure::Platform(5)));
    assert_eq!(publishing.stage, PublishStage::Done(Err(Failure::Platform(5))));
    publishing.on_outcome(Ok(()));
    assert_eq!(publishing.stage, PublishStage::Done(Err(Failure::Platform(5))));
    assert_eq!(Publishing::new(Vec::new()).stage, PublishStage::Done(Ok(())));
}

#[test]
fn announcements() {
    let app = app();
    let attributes = "{\"name\":\"Fan\",\"uniq_id\":\"esp32c6_dead000ff09a_fan\"}";
    assert_eq!(
        app.create_discover_payload("fan", attributes),
        Some((
            "homeassistant/fan/esp32c6_dead000ff09a_fan/config".to_string(),
            attributes.to_string()
        ))
    );
    let message = app.discover_message("fan", attributes).unwrap();
    assert_eq!(message.topic, "homeassistant/fan/esp32c6_dead000ff09a_fan/config");
    assert_eq!(message.payload, attributes);
    assert_eq!(message.qos, Delivery::ExactlyOnce);
    assert!(message.retain);
    for attributes in ["{}", "{\"uniq_id\":1}", "[]", "nonsense"] {
        assert_eq!(app.create_discover_payload("fan", attributes), None);
        assert!(app.discover_message("fan", attributes).is_none());
    }
}

#[test]
fn announcement_topics() {
    let id = Json::Text("x_timer".to_string());
    assert_eq!(
        topic_for("select", Some(&id)).as_deref(),
        Some("homeassistant/select/x_timer/config")
    );
    assert_eq!(topic_for("select", Some(&Json::Null)), None);
    assert_eq!(topic_for("select", None), None);
}

#[test]
fn fan_is_described() {
    let app = app();
    let e = app.fan_entity();
    assert_eq!(e.info.topic_prefix, "esp/esp32c6_dead000ff09a/fan");
    assert_eq!(e.info.category, Category::Config);
    assert_eq!(e.info.unique_id, "esp32c6_dead000ff09a_fan");
    assert_eq!(e.info.object_id, "esp32c6_dead000ff09a_fan");
    assert_eq!(e.info.device.identifier, "esp32c6_dead000ff09a");
    assert_eq!((e.info.device.model, e.info.device.manufacturer), ("173", "Vornado"));
    assert_eq!((e.info.icon, e.info.name), ("mdi:fan", "Fan"));
    assert_eq!(e.info.availability.topic, "~/state");
    assert_eq!(e.info.availability.value_template, "{{ value_json.status }}");
    assert_eq!(e.state_value_template, "{{ value_json.power | string() }}");
    assert_eq!(e.command_template, "{ \"power\": {{ value.lower() }} }");
    assert_eq!((e.payload_on, e.payload_off), ("True", "False"));
    assert_eq!(e.percentage_value_template, "{{ value_json.speed }}");
    assert_eq!(e.percentage_command_template, "{ \"speed\": {{ value }} }");
    let expand = |topic: &str| topic.replacen('~', &e.info.topic_prefix, 1);
    assert_eq!(app.subject(&expand(e.command_topic)), Subject::Request(Setting::Power));
    assert_eq!(app.subject(&expand(e.percentage_command_topic)), Subject::Request(Setting::Speed));
    assert_eq!(expand(e.state_topic), app.state_message(&Fan::new()).topic);
    assert_eq!(expand(e.percentage_state_topic), app.state_message(&Fan::new()).topic);
}

#[test]
fn timer_is_described() {
    let app = app();
    let e = app.timer_entity();
    assert_eq!(e.info.unique_id, "esp32c6_dead000ff09a_timer");
    assert_eq!((e.info.icon, e.info.name), ("mdi:fan-clock", "Auto-off Timer"));
    assert_eq!(e.options, ["Off", "1 hr", "2 hr", "4 hr", "8 hr"]);
    assert_eq!(e.value_template, "{{ value_json.timer }}");
    assert_eq!(e.command_template, "{ \"timer\": \"{{ value }}\" }");
    let expand = |topic: &str| topic.replacen('~', &e.info.topic_prefix, 1);
    assert_eq!(app.subject(&expand(e.command_topic)), Subject::Request(Setting::Timer));
    assert_eq!(expand(e.state_topic), app.state_message(&Fan::new()).topic);
    for option in &e.options {
        assert!(Timer::from_name(option).is_some());
    }
}
