//! What the controller makes of what it receives over MQTT.

use vstd::prelude::*;
use vstd::slice::slice_to_vec;
use vstd::utf8::{decode_utf8, valid_utf8};

use crate::app::{App, SignalType, SignalView};
use crate::json::{json_member, json_member_of, timer_in, Json, JsonView};
use crate::reaction::{once, Notice, NoticeView, Reaction, ReactionView};
use crate::state::{Fan, Timer};
use crate::text::{
    law_prefix_is_taken_off, same_text, strip_or_keep, text_from_utf8, without_prefix,
};

verus! {

/// A setting of the fan that can be requested.
#[derive(Clone, Copy, Debug, PartialEq, Eq, Structural)]
pub enum Setting {
    Power,
    Speed,
    Timer,
}

impl Setting {
    /// The key under which a request holds the setting.
    pub open spec fn key(self) -> Seq<char> {
        match self {
            Setting::Power => "power"@,
            Setting::Speed => "speed"@,
            Setting::Timer => "timer"@,
        }
    }

    fn key_name(&self) -> (key: &'static str)
        ensures
            key@ == self.key(),
    {
        match self {
            Setting::Power => "power",
            Setting::Speed => "speed",
            Setting::Timer => "timer",
        }
    }
}

/// What a topic is about.
#[derive(Clone, Copy, Debug, PartialEq, Eq, Structural)]
pub enum Subject {
    /// A setting of the fan is requested.
    Request(Setting),
    /// The controller is to restart.
    Reboot,
    /// The firmware is to be updated.
    Update,
    /// Home Assistant started or stopped.
    HomeAssistant,
    /// Nothing that is known.
    Unknown,
}

/// What a topic is about. The topics of a controller begin with `base`, which
/// may be left out.
pub open spec fn subject_of(base: Seq<char>, topic: Seq<char>) -> Subject {
    let local = without_prefix(topic, base);
    if local == "/fan/set"@ {
        Subject::Request(Setting::Power)
    } else if local == "/fan/speed/set"@ {
        Subject::Request(Setting::Speed)
    } else if local == "/fan/timer/set"@ {
        Subject::Request(Setting::Timer)
    } else if local == "/admin/reboot"@ {
        Subject::Reboot
    } else if local == "/admin/ota"@ {
        Subject::Update
    } else if local == "homeassistant/status"@ {
        Subject::HomeAssistant
    } else {
        Subject::Unknown
    }
}

/// A request that can be served.
#[derive(Debug)]
pub enum Command {
    SetPower(bool),
    /// A speed in percent.
    SetSpeed(u8),
    SetTimer(Timer),
    Reboot,
    /// Load the firmware from that address.
    Update(String),
    /// Publish the state.
    Publish,
}

/// A request that can be served.
pub enum CommandView {
    SetPower(bool),
    SetSpeed(u8),
    SetTimer(Timer),
    Reboot,
    Update(Seq<char>),
    Publish,
}

impl View for Command {
    type V = CommandView;

    open spec fn view(&self) -> CommandView {
        match self {
            Command::SetPower(val) => CommandView::SetPower(*val),
            Command::SetSpeed(val) => CommandView::SetSpeed(*val),
            Command::SetTimer(val) => CommandView::SetTimer(*val),
            Command::Reboot => CommandView::Reboot,
            Command::Update(uri) => CommandView::Update(uri@),
            Command::Publish => CommandView::Publish,
        }
    }
}

impl CommandView {
    /// A speed is at most one hundred percent.
    pub open spec fn wf(self) -> bool {
        self matches CommandView::SetSpeed(val) ==> val <= 100
    }
}

/// What a message turns out to be.
#[derive(Debug)]
pub enum Decoded {
    /// A request.
    Run(Command),
    /// Nothing that means anything to the controller.
    Ignore,
    /// A request without what it requests, or of the wrong type: no more
    /// messages are received.
    End,
    /// A request for something that does not exist: the controller gives up.
    Fault,
}

/// What a message turns out to be.
pub enum DecodedView {
    Run(CommandView),
    Ignore,
    End,
    Fault,
}

impl View for Decoded {
    type V = DecodedView;

    open spec fn view(&self) -> DecodedView {
        match self {
            Decoded::Run(command) => DecodedView::Run(command@),
            Decoded::Ignore => DecodedView::Ignore,
            Decoded::End => DecodedView::End,
            Decoded::Fault => DecodedView::Fault,
        }
    }
}

/// What a request for a setting is, given what the message holds under the
/// setting's key: none where the message is no JSON. Of the number for a speed
/// only the lowest eight bits count.
pub open spec fn request_in(setting: Setting, member: Option<JsonView>) -> DecodedView {
    match member {
        None => DecodedView::Ignore,
        Some(json) => match setting {
            Setting::Power => match json {
                JsonView::Bool(val) => DecodedView::Run(CommandView::SetPower(val)),
                _ => DecodedView::End,
            },
            Setting::Speed => match json {
                JsonView::Number(Some(n)) => if n % 256 <= 100 {
                    DecodedView::Run(CommandView::SetSpeed((n % 256) as u8))
                } else {
                    DecodedView::Fault
                },
                _ => DecodedView::End,
            },
            Setting::Timer => match timer_in(json) {
                Some(val) => DecodedView::Run(CommandView::SetTimer(val)),
                None => DecodedView::Fault,
            },
        },
    }
}

/// What a message is, given its subject and what it holds under the key of a
/// setting that it requests.
pub open spec fn message_in(
    subject: Subject,
    data: Seq<u8>,
    member: Option<JsonView>,
) -> DecodedView {
    match subject {
        Subject::Request(setting) => request_in(setting, member),
        Subject::Reboot => DecodedView::Run(CommandView::Reboot),
        Subject::Update => if valid_utf8(data) {
            DecodedView::Run(CommandView::Update(decode_utf8(data)))
        } else {
            DecodedView::Fault
        },
        Subject::HomeAssistant => DecodedView::Run(CommandView::Publish),
        Subject::Unknown => DecodedView::Ignore,
    }
}

/// What a message under a topic is.
pub open spec fn decoded(base: Seq<char>, topic: Seq<char>, data: Seq<u8>) -> DecodedView {
    let subject = subject_of(base, topic);
    message_in(
        subject,
        data,
        match subject {
            Subject::Request(setting) => json_member_of(data, setting.key()),
            _ => None,
        },
    )
}

/// What the controller remembers after a request was served.
pub open spec fn fan_after(fan: Fan, command: CommandView) -> Fan {
    match command {
        CommandView::SetPower(val) => fan.powered(val),
        CommandView::SetSpeed(val) => fan.at_speed(val),
        CommandView::SetTimer(val) => if fan.power {
            fan.at_timer(val)
        } else {
            fan
        },
        _ => fan,
    }
}

/// What the controller does to serve a request. A timer is started only on a
/// fan that is on.
pub open spec fn reaction_to(fan: Fan, command: CommandView) -> ReactionView {
    let publish = NoticeView::Signal(SignalView::Publish);
    match command {
        CommandView::SetPower(val) => ReactionView {
            steps: fan.power_steps(val),
            notices: seq![publish],
        },
        CommandView::SetSpeed(val) => ReactionView {
            steps: fan.speed_steps(val),
            notices: seq![publish],
        },
        CommandView::SetTimer(val) => if fan.power {
            ReactionView {
                steps: fan.timer_steps(val),
                notices: seq![publish, NoticeView::StartTimer(val)],
            }
        } else {
            ReactionView { steps: Seq::empty(), notices: seq![publish] }
        },
        CommandView::Reboot => ReactionView {
            steps: Seq::empty(),
            notices: seq![NoticeView::Restart],
        },
        CommandView::Update(uri) => ReactionView {
            steps: Seq::empty(),
            notices: seq![NoticeView::StartUpdate(uri)],
        },
        CommandView::Publish => ReactionView { steps: Seq::empty(), notices: seq![publish] },
    }
}

/// What a request for a setting is, given what the message holds under the
/// setting's key: none where the message is no JSON.
pub fn decode_request(setting: Setting, member: Option<&Json>) -> (res: Decoded)
    ensures
        res@ == request_in(
            setting,
            match member {
                Some(json) => Some(json@),
                None => None,
            },
        ),
        res@ matches DecodedView::Run(command) ==> command.wf(),
{
    let json = match member {
        Some(json) => json,
        None => return Decoded::Ignore,
    };
    match setting {
        Setting::Power => match json {
            Json::Bool(val) => Decoded::Run(Command::SetPower(*val)),
            _ => Decoded::End,
        },
        Setting::Speed => match json {
            Json::Number(Some(n)) => {
                let val: u8 = (*n % 256) as u8;
                if val <= 100 {
                    Decoded::Run(Command::SetSpeed(val))
                } else {
                    Decoded::Fault
                }
            },
            _ => Decoded::End,
        },
        Setting::Timer => match Timer::from_json(json) {
            Some(val) => Decoded::Run(Command::SetTimer(val)),
            None => Decoded::Fault,
        },
    }
}

/// Serves a request.
pub fn serve(state: &mut Fan, command: Command) -> (res: Reaction)
    requires
        command@.wf(),
    ensures
        *final(state) == fan_after(*old(state), command@),
        res@ == reaction_to(*old(state), command@),
        old(state).wf() ==> final(state).wf(),
{
    let ghost before = *state;
    let publish = Notice::Signal(SignalType::Publish);
    let res = match command {
        Command::SetPower(val) => Reaction {
            steps: state.set_power(val),
            notices: vec![publish],
        },
        Command::SetSpeed(val) => Reaction {
            steps: state.set_speed(val),
            notices: vec![publish],
        },
        Command::SetTimer(val) => match state.set_timer(val) {
            Ok((t, steps)) => Reaction { steps, notices: vec![publish, Notice::StartTimer(t)] },
            Err(_) => Reaction { steps: Vec::new(), notices: vec![publish] },
        },
        Command::Reboot => Reaction { steps: Vec::new(), notices: vec![Notice::Restart] },
        Command::Update(uri) => Reaction {
            steps: Vec::new(),
            notices: vec![Notice::StartUpdate(uri)],
        },
        Command::Publish => Reaction { steps: Vec::new(), notices: vec![publish] },
    };
    assert(res@ =~= reaction_to(before, command@));
    res
}

/// An event of the connection to the MQTT broker.
#[derive(Debug)]
pub enum MqttEvent {
    Connected,
    Disconnected,
    /// A message; one without a topic is a part of another one.
    Received { topic: Option<String>, data: Vec<u8> },
    Other,
}

/// What comes of an event.
#[derive(Debug)]
pub enum Turn {
    /// Do this, and wait for the next event.
    Go(Reaction),
    /// Wait for no more events.
    End,
    /// Give up.
    Fault,
}

/// What the controller remembers after an event.
pub open spec fn fan_after_event(base: Seq<char>, fan: Fan, event: MqttEvent) -> Fan {
    match event {
        MqttEvent::Received { topic: Some(topic), data } => match decoded(base, topic@, data@) {
            DecodedView::Run(command) => fan_after(fan, command),
            _ => fan,
        },
        _ => fan,
    }
}

/// What the controller does upon an event; none if it stops receiving.
pub open spec fn reaction_to_event(
    base: Seq<char>,
    fan: Fan,
    event: MqttEvent,
) -> ReactionView {
    let idle = ReactionView { steps: Seq::empty(), notices: Seq::empty() };
    match event {
        MqttEvent::Received { topic: Some(topic), data } => match decoded(base, topic@, data@) {
            DecodedView::Run(command) => reaction_to(fan, command),
            _ => idle,
        },
        MqttEvent::Disconnected => ReactionView {
            steps: Seq::empty(),
            notices: seq![NoticeView::Reconnect],
        },
        MqttEvent::Connected => ReactionView {
            steps: Seq::empty(),
            notices: seq![
                NoticeView::Signal(SignalView::Discover),
                NoticeView::Signal(SignalView::Resubscribe),
            ],
        },
        _ => idle,
    }
}

/// What a received message turns out to be, where the event is one.
pub open spec fn decoded_event(base: Seq<char>, event: MqttEvent) -> DecodedView {
    match event {
        MqttEvent::Received { topic: Some(topic), data } => decoded(base, topic@, data@),
        _ => DecodedView::Ignore,
    }
}

impl App {
    /// What a topic is about.
    pub fn subject(&self, topic: &str) -> (subject: Subject)
        ensures
            subject == subject_of(self.base_topic@, topic@),
    {
        let local = strip_or_keep(topic, self.base_topic.as_str());
        if same_text(local, "/fan/set") {
            Subject::Request(Setting::Power)
        } else if same_text(local, "/fan/speed/set") {
            Subject::Request(Setting::Speed)
        } else if same_text(local, "/fan/timer/set") {
            Subject::Request(Setting::Timer)
        } else if same_text(local, "/admin/reboot") {
            Subject::Reboot
        } else if same_text(local, "/admin/ota") {
            Subject::Update
        } else if same_text(local, "homeassistant/status") {
            Subject::HomeAssistant
        } else {
            Subject::Unknown
        }
    }

    /// What a message under a topic is.
    pub fn decode(&self, topic: &str, data: &[u8]) -> (res: Decoded)
        ensures
            res@ == decoded(self.base_topic@, topic@, data@),
            res@ matches DecodedView::Run(command) ==> command.wf(),
    {
        match self.subject(topic) {
            Subject::Request(setting) => match json_member(data, setting.key_name()) {
                Ok(json) => decode_request(setting, Some(&json)),
                Err(_) => decode_request(setting, None),
            },
            Subject::Reboot => Decoded::Run(Command::Reboot),
            Subject::Update => match text_from_utf8(slice_to_vec(data)) {
                Some(uri) => Decoded::Run(Command::Update(uri)),
                None => Decoded::Fault,
            },
            Subject::HomeAssistant => Decoded::Run(Command::Publish),
            Subject::Unknown => Decoded::Ignore,
        }
    }

    /// One turn of the receiving task: what comes of an event.
    pub fn mqtt_recv_step(&self, state: &mut Fan, event: &MqttEvent) -> (turn: Turn)
        ensures
            *final(state) == fan_after_event(self.base_topic@, *old(state), *event),
            old(state).wf() ==> final(state).wf(),
            match turn {
                Turn::Go(reaction) => {
                    &&& reaction@ == reaction_to_event(self.base_topic@, *old(state), *event)
                    &&& decoded_event(self.base_topic@, *event) is Run || decoded_event(
                        self.base_topic@,
                        *event,
                    ) is Ignore
                },
                Turn::End => decoded_event(self.base_topic@, *event) is End,
                Turn::Fault => decoded_event(self.base_topic@, *event) is Fault,
            },
    {
        let ghost before = *state;
        match event {
            MqttEvent::Received { topic: Some(topic), data } => match self.decode(
                topic.as_str(),
                data.as_slice(),
            ) {
                Decoded::Run(command) => Turn::Go(serve(state, command)),
                Decoded::Ignore => Turn::Go(Self::idle()),
                Decoded::End => Turn::End,
                Decoded::Fault => Turn::Fault,
            },
            MqttEvent::Received { topic: None, data: _ } => Turn::Go(Self::idle()),
            MqttEvent::Disconnected => {
                let res = Reaction { steps: Vec::new(), notices: vec![Notice::Reconnect] };
                assert(res@ =~= reaction_to_event(self.base_topic@, before, *event));
                Turn::Go(res)
            },
            MqttEvent::Connected => {
                let res = Reaction {
                    steps: Vec::new(),
                    notices: vec![
                        Notice::Signal(SignalType::Discover),
                        Notice::Signal(SignalType::Resubscribe),
                    ],
                };
                assert(res@ =~= reaction_to_event(self.base_topic@, before, *event));
                Turn::Go(res)
            },
            MqttEvent::Other => Turn::Go(Self::idle()),
        }
    }

    /// Nothing to do.
    fn idle() -> (res: Reaction)
        ensures
            res@ == (ReactionView { steps: Seq::empty(), notices: Seq::empty() }),
    {
        let res = Reaction { steps: Vec::new(), notices: Vec::new() };
        assert(res@ =~= ReactionView { steps: Seq::empty(), notices: Seq::empty() });
        res
    }
}

/// Every request for a setting is answered: the state is published once, after
/// the fan was dealt with, whether or not the request was granted.
pub proof fn law_requests_are_answered(fan: Fan, command: CommandView)
    requires
        command is SetPower || command is SetSpeed || command is SetTimer,
    ensures
        reaction_to(fan, command).notices[0] == NoticeView::Signal(SignalView::Publish),
        forall|i: int|
            1 <= i < reaction_to(fan, command).notices.len() ==> !(
            #[trigger] reaction_to(fan, command).notices[i] is Signal),
{
}

/// A timer that is asked for while the fan is off is refused: nothing is sent,
/// nothing is remembered, and no time begins to run.
pub proof fn law_timer_is_refused_when_off(fan: Fan, val: Timer)
    requires
        !fan.power,
    ensures
        fan_after(fan, CommandView::SetTimer(val)) == fan,
        reaction_to(fan, CommandView::SetTimer(val)).steps.len() == 0,
        forall|i: int|
            0 <= i < reaction_to(fan, CommandView::SetTimer(val)).notices.len() ==> !(
            #[trigger] reaction_to(fan, CommandView::SetTimer(val)).notices[i] is StartTimer),
{
}

/// To ask for the power that the fan has changes nothing and sends nothing.
pub proof fn law_same_power_sends_nothing(fan: Fan)
    ensures
        fan_after(fan, CommandView::SetPower(fan.power)) == fan,
        reaction_to(fan, CommandView::SetPower(fan.power)).steps.len() == 0,
{
}

/// A request that is repeated at once sends nothing more and changes nothing
/// more.
pub proof fn law_repeated_request_sends_nothing(fan: Fan, command: CommandView)
    requires
        command.wf(),
        command is SetPower || command is SetSpeed || command is SetTimer,
    ensures
        reaction_to(fan_after(fan, command), command).steps.len() == 0,
        fan_after(fan_after(fan, command), command) == fan_after(fan, command),
{
}

proof fn lemma_local_topics_differ()
    ensures
        "/fan/set"@ != "/fan/speed/set"@,
        "/fan/set"@ != "/fan/timer/set"@,
        "/fan/set"@ != "/admin/reboot"@,
        "/fan/set"@ != "/admin/ota"@,
        "/fan/set"@ != "homeassistant/status"@,
        "/fan/speed/set"@ != "/fan/timer/set"@,
        "/fan/speed/set"@ != "/admin/reboot"@,
        "/fan/speed/set"@ != "/admin/ota"@,
        "/fan/speed/set"@ != "homeassistant/status"@,
        "/fan/timer/set"@ != "/admin/reboot"@,
        "/fan/timer/set"@ != "/admin/ota"@,
        "/fan/timer/set"@ != "homeassistant/status"@,
        "/admin/reboot"@ != "/admin/ota"@,
        "/admin/reboot"@ != "homeassistant/status"@,
        "/admin/ota"@ != "homeassistant/status"@,
{
    reveal_strlit("/fan/set");
    reveal_strlit("/fan/speed/set");
    reveal_strlit("/fan/timer/set");
    reveal_strlit("/admin/reboot");
    reveal_strlit("/admin/ota");
    reveal_strlit("homeassistant/status");
    assert("/fan/set"@.len() == 8 && "/admin/reboot"@.len() == 13 && "/admin/ota"@.len() == 10);
    assert("/fan/speed/set"@[5] == 's' && "/fan/timer/set"@[5] == 't');
    assert("/fan/speed/set"@.len() == 14 && "/fan/timer/set"@.len() == 14);
    assert("homeassistant/status"@.len() == 20);
}

/// Each subject has one topic, which is the same with and without what the
/// topics of the controller begin with, and every other topic is unknown.
pub proof fn law_subjects_have_their_topics(base: Seq<char>, local: Seq<char>, topic: Seq<char>)
    requires
        topic == base + local || (topic == local && !base.is_prefix_of(local)),
    ensures
        subject_of(base, topic) == Subject::Request(Setting::Power) <==> local == "/fan/set"@,
        subject_of(base, topic) == Subject::Request(Setting::Speed) <==> local
            == "/fan/speed/set"@,
        subject_of(base, topic) == Subject::Request(Setting::Timer) <==> local
            == "/fan/timer/set"@,
        subject_of(base, topic) == Subject::Reboot <==> local == "/admin/reboot"@,
        subject_of(base, topic) == Subject::Update <==> local == "/admin/ota"@,
        subject_of(base, topic) == Subject::HomeAssistant <==> local == "homeassistant/status"@,
{
    law_prefix_is_taken_off(base, local, topic);
    lemma_local_topics_differ();
}

/// A request for a setting is looked up under the name of the setting.
pub proof fn law_settings_have_their_keys(setting: Setting)
    ensures
        setting == Setting::Power ==> setting.key() == "power"@,
        setting == Setting::Speed ==> setting.key() == "speed"@,
        setting == Setting::Timer ==> setting.key() == "timer"@,
{
}

/// What is no JSON is ignored. A power is asked for by a truth value, and
/// anything else ends receiving.
pub proof fn law_power_requests_are_read(json: JsonView, val: bool)
    ensures
        forall|setting: Setting| #[trigger] request_in(setting, None) is Ignore,
        request_in(Setting::Power, Some(json)) == DecodedView::Run(CommandView::SetPower(val))
            <==> json == JsonView::Bool(val),
        request_in(Setting::Power, Some(json)) is End <==> !(json is Bool),
        request_in(Setting::Power, Some(json)) is End || request_in(
            Setting::Power,
            Some(json),
        ) is Run,
{
}

/// A speed is asked for by a natural number, of which the lowest eight bits
/// count. More than one hundred is a fault, and anything that is no such
/// number ends receiving.
pub proof fn law_speed_requests_are_read(json: JsonView, n: u64)
    ensures
        n % 256 <= 100 ==> request_in(Setting::Speed, Some(JsonView::Number(Some(n))))
            == DecodedView::Run(CommandView::SetSpeed((n % 256) as u8)),
        n % 256 > 100 ==> request_in(Setting::Speed, Some(JsonView::Number(Some(n)))) is Fault,
        request_in(Setting::Speed, Some(json)) is End <==> !(json matches JsonView::Number(Some(
            _,
        ))),
        n <= 100 ==> request_in(Setting::Speed, Some(JsonView::Number(Some(n))))
            == DecodedView::Run(CommandView::SetSpeed(n as u8)),
{
}

/// A timer is asked for by the name of its setting, and anything else is a
/// fault.
pub proof fn law_timer_requests_are_read(json: JsonView, timer: Timer)
    ensures
        request_in(Setting::Timer, Some(json)) == DecodedView::Run(CommandView::SetTimer(timer))
            <==> timer_in(json) == Some(timer),
        request_in(Setting::Timer, Some(json)) is Fault <==> timer_in(json) is None,
        request_in(Setting::Timer, Some(json)) is Run || request_in(
            Setting::Timer,
            Some(json),
        ) is Fault,
{
}

/// What a message is depends on its subject. A request is what it holds under
/// the key of the setting; a restart, and a sign of life from Home Assistant,
/// are what they are whatever the message holds; an update needs an address
/// that is a text; and what is about nothing known is ignored.
pub proof fn law_messages_are_read(base: Seq<char>, topic: Seq<char>, data: Seq<u8>)
    ensures
        subject_of(base, topic) == Subject::Request(Setting::Power) ==> decoded(base, topic, data)
            == request_in(Setting::Power, json_member_of(data, "power"@)),
        subject_of(base, topic) == Subject::Request(Setting::Speed) ==> decoded(base, topic, data)
            == request_in(Setting::Speed, json_member_of(data, "speed"@)),
        subject_of(base, topic) == Subject::Request(Setting::Timer) ==> decoded(base, topic, data)
            == request_in(Setting::Timer, json_member_of(data, "timer"@)),
        decoded(base, topic, data) == DecodedView::Run(CommandView::Reboot) <==> subject_of(
            base,
            topic,
        ) is Reboot,
        decoded(base, topic, data) == DecodedView::Run(CommandView::Publish) <==> subject_of(
            base,
            topic,
        ) is HomeAssistant,
        subject_of(base, topic) is Update && valid_utf8(data) ==> decoded(base, topic, data)
            == DecodedView::Run(CommandView::Update(decode_utf8(data))),
        subject_of(base, topic) is Update && !valid_utf8(data) ==> decoded(
            base,
            topic,
            data,
        ) is Fault,
        subject_of(base, topic) is Unknown ==> decoded(base, topic, data) is Ignore,
{
}

/// A request for a setting passes on the publish signal, first and once, and
/// besides it, for a timer on a fan that is on, that timer, and nothing more:
/// it never restarts the controller, connects it again or updates it.
pub proof fn law_settings_pass_on_nothing_else(fan: Fan, command: CommandView, i: int)
    requires
        command is SetPower || command is SetSpeed || command is SetTimer,
    ensures
        once(reaction_to(fan, command).notices, NoticeView::Signal(SignalView::Publish)),
        reaction_to(fan, command).notices[0] == NoticeView::Signal(SignalView::Publish),
        reaction_to(fan, command).notices.len() == 2 <==> command is SetTimer && fan.power,
        reaction_to(fan, command).notices.len() <= 2,
        fan.power ==> (command matches CommandView::SetTimer(val) ==> reaction_to(
            fan,
            command,
        ).notices[1] == NoticeView::StartTimer(val)),
        0 <= i < reaction_to(fan, command).notices.len() ==> {
            let notice = reaction_to(fan, command).notices[i];
            &&& !(notice is Restart)
            &&& !(notice is Reconnect)
            &&& !(notice is StartUpdate)
        },
{
    assert(reaction_to(fan, command).notices[0] == NoticeView::Signal(SignalView::Publish));
}

/// Requests that are about no setting leave the fan alone, and pass on one
/// notice: what was asked for.
pub proof fn law_other_requests_leave_the_fan_alone(fan: Fan, command: CommandView)
    requires
        command is Reboot || command is Update || command is Publish,
    ensures
        fan_after(fan, command) == fan,
        reaction_to(fan, command).steps.len() == 0,
        reaction_to(fan, command).notices.len() == 1,
        reaction_to(fan, command).notices[0] is Restart <==> command is Reboot,
        command matches CommandView::Update(uri) ==> reaction_to(fan, command).notices[0]
            == NoticeView::StartUpdate(uri),
        command is Publish ==> reaction_to(fan, command).notices[0] == NoticeView::Signal(
            SignalView::Publish,
        ),
{
}

/// A request changes the setting that it is about as was asked, with the key
/// presses for just that.
pub proof fn law_settings_are_as_asked(fan: Fan, power: bool, speed: u8, timer: Timer)
    ensures
        fan_after(fan, CommandView::SetPower(power)) == fan.powered(power),
        reaction_to(fan, CommandView::SetPower(power)).steps == fan.power_steps(power),
        fan_after(fan, CommandView::SetSpeed(speed)) == fan.at_speed(speed),
        reaction_to(fan, CommandView::SetSpeed(speed)).steps == fan.speed_steps(speed),
        fan.power ==> {
            &&& fan_after(fan, CommandView::SetTimer(timer)) == fan.at_timer(timer)
            &&& reaction_to(fan, CommandView::SetTimer(timer)).steps == fan.timer_steps(timer)
        },
{
}

/// What is done upon a change of the connection depends neither on the fan
/// nor on the topics, and leaves the fan alone. Upon a new connection the fan
/// is announced and then the topics are subscribed to again; upon a lost one
/// the controller connects again; and nothing else is done.
pub proof fn law_connection_is_kept_useful(
    base: Seq<char>,
    fan: Fan,
    other_base: Seq<char>,
    other: Fan,
    event: MqttEvent,
)
    requires
        event is Connected || event is Disconnected,
    ensures
        reaction_to_event(base, fan, event) == reaction_to_event(other_base, other, event),
        fan_after_event(base, fan, event) == fan,
        decoded_event(base, event) is Ignore,
        reaction_to_event(base, fan, event).steps.len() == 0,
        event is Connected ==> {
            let notices = reaction_to_event(base, fan, event).notices;
            &&& notices.len() == 2
            &&& notices[0] == NoticeView::Signal(SignalView::Discover)
            &&& notices[1] == NoticeView::Signal(SignalView::Resubscribe)
            &&& notices.contains(NoticeView::Signal(SignalView::Discover))
            &&& notices.contains(NoticeView::Signal(SignalView::Resubscribe))
        },
        event is Disconnected ==> {
            let notices = reaction_to_event(base, fan, event).notices;
            &&& notices.len() == 1
            &&& notices[0] is Reconnect
        },
{
    let notices = reaction_to_event(base, fan, event).notices;
    if event is Connected {
        assert(notices[0] == NoticeView::Signal(SignalView::Discover));
        assert(notices[1] == NoticeView::Signal(SignalView::Resubscribe));
    }
}

/// A message under a topic is served as the request that it turns out to be,
/// and does nothing where it is none. A message without a topic, and any other
/// event, does nothing.
pub proof fn law_events_are_served(
    base: Seq<char>,
    fan: Fan,
    event: MqttEvent,
    topic: String,
    data: Vec<u8>,
)
    ensures
        event == (MqttEvent::Received { topic: Some(topic), data }) ==> {
            &&& decoded_event(base, event) == decoded(base, topic@, data@)
            &&& decoded(base, topic@, data@) matches DecodedView::Run(command) ==> {
                &&& fan_after_event(base, fan, event) == fan_after(fan, command)
                &&& reaction_to_event(base, fan, event) == reaction_to(fan, command)
            }
            &&& !(decoded(base, topic@, data@) is Run) ==> {
                &&& fan_after_event(base, fan, event) == fan
                &&& reaction_to_event(base, fan, event).steps.len() == 0
                &&& reaction_to_event(base, fan, event).notices.len() == 0
            }
        },
        event is Other || event == (MqttEvent::Received { topic: None, data }) ==> {
            &&& decoded_event(base, event) is Ignore
            &&& fan_after_event(base, fan, event) == fan
            &&& reaction_to_event(base, fan, event).steps.len() == 0
            &&& reaction_to_event(base, fan, event).notices.len() == 0
        },
{
}

/// What is requested is what the view of a request says, and what a message
/// turns out to be is what the view of that says.
pub proof fn law_requests_are_kept(command: Command, message: Decoded)
    ensures
        command matches Command::SetPower(val) ==> command@ == CommandView::SetPower(val),
        command matches Command::SetSpeed(val) ==> command@ == CommandView::SetSpeed(val),
        command matches Command::SetTimer(val) ==> command@ == CommandView::SetTimer(val),
        command is Reboot <==> command@ == CommandView::Reboot,
        command matches Command::Update(uri) ==> command@ == CommandView::Update(uri@),
        command is Publish <==> command@ == CommandView::Publish,
        message matches Decoded::Run(c) ==> message@ == DecodedView::Run(c@),
        message is Ignore <==> message@ is Ignore,
        message is End <==> message@ is End,
        message is Fault <==> message@ is Fault,
{
}

} // verus!
