//! What the controller sends over MQTT.

use vstd::prelude::*;
use vstd::utf8::encode_utf8;

use crate::app::{App, SignalType, SignalView};
use crate::common::DISCOVERY_PREFIX;
use crate::error::Failure;
use crate::json::{
    json_member, json_member_of, json_object, json_object_text, members, Attribute, AttributeView,
    Json, JsonView,
};
use crate::mqtt::{fan_after, request_in, CommandView, DecodedView, Setting};
use crate::state::Fan;

verus! {

/// How hard the broker tries to deliver a message.
#[derive(Clone, Copy, Debug, PartialEq, Eq, Structural)]
pub enum Delivery {
    AtLeastOnce,
    ExactlyOnce,
}

/// A message to be published.
#[derive(Debug)]
pub struct Publication {
    pub topic: String,
    pub qos: Delivery,
    /// Whether the broker keeps the message for later subscribers.
    pub retain: bool,
    pub payload: String,
}

/// A message to be published.
#[verifier::ext_equal]
pub struct PublicationView {
    pub topic: Seq<char>,
    pub qos: Delivery,
    pub retain: bool,
    pub payload: Seq<char>,
}

impl View for Publication {
    type V = PublicationView;

    open spec fn view(&self) -> PublicationView {
        PublicationView {
            topic: self.topic@,
            qos: self.qos,
            retain: self.retain,
            payload: self.payload@,
        }
    }
}

/// What the sending task does upon a signal.
#[derive(Debug)]
pub enum Outgoing {
    /// Publish the descriptions of the fan's entities.
    Announce,
    /// Subscribe to every topic.
    Subscribe,
    /// Publish a message.
    Send(Publication),
}

/// What the state of a fan is reported as.
pub open spec fn fan_members(fan: Fan) -> Seq<(Seq<char>, AttributeView)> {
    seq![
        ("power"@, AttributeView::Flag(fan.power)),
        ("speed_lvl"@, AttributeView::Text(fan.speed_lvl.label())),
        ("speed"@, AttributeView::Level(fan.speed as u64)),
        ("timer"@, AttributeView::Text(fan.timer.label())),
    ]
}

/// What a controller that is on line reports.
pub open spec fn state_members(fan: Fan) -> Seq<(Seq<char>, AttributeView)> {
    fan_members(fan).push(("status"@, AttributeView::Text("online"@)))
}

/// The topic under which the state is published.
pub open spec fn state_topic(base: Seq<char>) -> Seq<char> {
    base + "/fan/state"@
}

/// The message that reports the state of a fan.
pub open spec fn state_report(base: Seq<char>, fan: Fan) -> PublicationView {
    PublicationView {
        topic: state_topic(base),
        qos: Delivery::ExactlyOnce,
        retain: false,
        payload: json_object_text(state_members(fan)),
    }
}

/// Whoever reads the JSON text in `data` finds under each key what is
/// remembered of a fan, and that the controller is on line.
pub open spec fn reports(data: Seq<u8>, fan: Fan) -> bool {
    &&& json_member_of(data, "power"@) == Some(JsonView::Bool(fan.power))
    &&& json_member_of(data, "speed_lvl"@) == Some(JsonView::Text(fan.speed_lvl.label()))
    &&& json_member_of(data, "speed"@) == Some(JsonView::Number(Some(fan.speed as u64)))
    &&& json_member_of(data, "timer"@) == Some(JsonView::Text(fan.timer.label()))
    &&& json_member_of(data, "status"@) == Some(JsonView::Text("online"@))
}

/// The message that tells a maintainer something.
pub open spec fn log_report(base: Seq<char>, msg: Seq<char>) -> PublicationView {
    PublicationView {
        topic: base + "/log"@,
        qos: Delivery::AtLeastOnce,
        retain: false,
        payload: msg,
    }
}

/// The topics that are subscribed to.
pub open spec fn subscribed(base: Seq<char>) -> Seq<Seq<char>> {
    seq![
        DISCOVERY_PREFIX@ + "/status"@,
        base + "/+/set"@,
        base + "/+/+/set"@,
        base + "/admin/+"@,
    ]
}

/// The topic under which an entity is announced.
pub open spec fn discovery_topic(component: Seq<char>, object_id: Seq<char>) -> Seq<char> {
    DISCOVERY_PREFIX@ + "/"@ + component + "/"@ + object_id + "/config"@
}

/// The topic under which an entity is announced, given what its attributes
/// hold as its unique name: none without such a name.
pub open spec fn announcement_topic(
    component: Seq<char>,
    uniq_id: Option<JsonView>,
) -> Option<Seq<char>> {
    match uniq_id {
        Some(JsonView::Text(object_id)) => Some(discovery_topic(component, object_id)),
        _ => None,
    }
}

/// `a` and then `b`.
pub(crate) fn joined(a: &str, b: &str) -> (text: String)
    ensures
        text@ == a@ + b@,
{
    let mut text = a.to_owned();
    text.append(b);
    text
}

impl Fan {
    /// What the state is reported as: keys and values.
    pub fn attributes(&self) -> (entries: Vec<(String, Attribute)>)
        ensures
            members(entries@) == fan_members(*self),
    {
        let entries: Vec<(String, Attribute)> = vec![
            ("power".to_owned(), Attribute::Flag(self.power)),
            ("speed_lvl".to_owned(), Attribute::Text(self.speed_lvl.name().to_owned())),
            ("speed".to_owned(), Attribute::Level(self.speed as u64)),
            ("timer".to_owned(), Attribute::Text(self.timer.name().to_owned())),
        ];
        assert(members(entries@) =~= fan_members(*self));
        entries
    }
}

/// The topic under which an entity is announced, given what its attributes
/// hold as its unique name.
pub fn topic_for(component: &str, uniq_id: Option<&Json>) -> (topic: Option<String>)
    ensures
        match topic {
            Some(topic) => announcement_topic(
                component@,
                match uniq_id {
                    Some(json) => Some(json@),
                    None => None,
                },
            ) == Some(topic@),
            None => announcement_topic(
                component@,
                match uniq_id {
                    Some(json) => Some(json@),
                    None => None,
                },
            ) is None,
        },
{
    match uniq_id {
        Some(Json::Text(object_id)) => {
            let mut topic = joined(DISCOVERY_PREFIX, "/");
            topic.append(component);
            topic.append("/");
            topic.append(object_id.as_str());
            topic.append("/config");
            Some(topic)
        },
        _ => None,
    }
}

impl App {
    /// The message that reports the state of the fan. Whoever reads it finds
    /// under each key what the controller remembers.
    pub fn state_message(&self, state: &Fan) -> (res: Publication)
        ensures
            res@ == state_report(self.base_topic@, *state),
            reports(encode_utf8(res.payload@), *state),
    {
        let mut attrs = state.attributes();
        let ghost before = attrs@;
        attrs.push(("status".to_owned(), Attribute::Text("online".to_owned())));
        proof {
            assert(members(attrs@) =~= members(before).push(
                ("status"@, AttributeView::Text("online"@)),
            ));
            lemma_state_keys_distinct(*state);
        }
        let payload = json_object(&attrs);
        proof {
            let m = state_members(*state);
            assert(m[0].0 == "power"@ && m[1].0 == "speed_lvl"@ && m[2].0 == "speed"@ && m[3].0
                == "timer"@ && m[4].0 == "status"@);
        }
        Publication {
            topic: joined(self.base_topic.as_str(), "/fan/state"),
            qos: Delivery::ExactlyOnce,
            retain: false,
            payload,
        }
    }

    /// The message that tells a maintainer something.
    pub fn log_message(&self, msg: String) -> (res: Publication)
        ensures
            res@ == log_report(self.base_topic@, msg@),
    {
        Publication {
            topic: joined(self.base_topic.as_str(), "/log"),
            qos: Delivery::AtLeastOnce,
            retain: false,
            payload: msg,
        }
    }

    /// The signals that the sending task sends itself when it starts, after it
    /// has subscribed to the topics.
    pub fn startup_signals(&self) -> (signals: Vec<SignalType>)
        ensures
            signals@.len() == 2,
            signals@[0]@ == SignalView::Discover,
            signals@[1]@ == SignalView::Publish,
    {
        vec![SignalType::Discover, self.signal_needs_publish()]
    }

    /// One turn of the sending task: what is done upon a signal.
    pub fn mqtt_send_step(&self, state: &Fan, signal: SignalType) -> (res: Outgoing)
        ensures
            match signal@ {
                SignalView::Discover => res is Announce,
                SignalView::Publish => {
                    &&& res matches Outgoing::Send(p)
                    &&& p@ == state_report(self.base_topic@, *state)
                    &&& reports(encode_utf8(p.payload@), *state)
                },
                SignalView::Resubscribe => res is Subscribe,
                SignalView::Log(msg) => res matches Outgoing::Send(p) && p@ == log_report(
                    self.base_topic@,
                    msg,
                ),
            },
    {
        match signal {
            SignalType::Discover => Outgoing::Announce,
            SignalType::Publish => Outgoing::Send(self.state_message(state)),
            SignalType::Resubscribe => Outgoing::Subscribe,
            SignalType::Log(msg) => Outgoing::Send(self.log_message(msg)),
        }
    }

    /// The topic and the payload of the message that announces an entity,
    /// given the kind of the entity and its attributes as a JSON text.
    pub fn create_discover_payload(&self, component: &str, attributes: &str) -> (res: Option<
        (String, String),
    >)
        ensures
            match res {
                Some((topic, payload)) => {
                    &&& announcement_topic(
                        component@,
                        json_member_of(encode_utf8(attributes@), "uniq_id"@),
                    ) == Some(topic@)
                    &&& payload@ == attributes@
                },
                None => announcement_topic(
                    component@,
                    json_member_of(encode_utf8(attributes@), "uniq_id"@),
                ) is None,
            },
    {
        let topic = match json_member(attributes.as_bytes(), "uniq_id") {
            Ok(json) => topic_for(component, Some(&json)),
            Err(_) => None,
        };
        match topic {
            Some(topic) => Some((topic, attributes.to_owned())),
            None => None,
        }
    }
}

proof fn lemma_state_keys_distinct(fan: Fan)
    ensures
        crate::json::keys_distinct(state_members(fan)),
{
    reveal_strlit("power");
    reveal_strlit("speed_lvl");
    reveal_strlit("speed");
    reveal_strlit("timer");
    reveal_strlit("status");
    assert("power"@[0] == 'p' && "timer"@[0] == 't' && "speed"@[0] == 's' && "status"@[1] == 't'
        && "speed"@[1] == 'p' && "speed_lvl"@[0] == 's' && "status"@[0] == 's' && "speed_lvl"@[1]
        == 'p');
    assert("speed"@.len() == 5 && "speed_lvl"@.len() == 9 && "status"@.len() == 6);
}

/// What is reported is what is accepted: whoever sends a report back as a
/// request for a setting requests just what was reported of that setting.
pub proof fn law_reports_are_valid_requests(data: Seq<u8>, fan: Fan)
    requires
        fan.wf(),
    ensures
        reports(data, fan) ==> {
            &&& request_in(
                Setting::Power,
                json_member_of(data, Setting::Power.key()),
            ) == DecodedView::Run(CommandView::SetPower(fan.power))
            &&& request_in(
                Setting::Speed,
                json_member_of(data, Setting::Speed.key()),
            ) == DecodedView::Run(CommandView::SetSpeed(fan.speed))
            &&& request_in(
                Setting::Timer,
                json_member_of(data, Setting::Timer.key()),
            ) == DecodedView::Run(CommandView::SetTimer(fan.timer))
        },
{
    crate::json::law_timer_names_read_back(fan.timer);
}

/// To request what a report of a fan that is on says brings any fan into the
/// state that was reported.
pub proof fn law_report_restores_the_state(fan: Fan, other: Fan)
    requires
        fan.wf(),
        fan.power,
    ensures
        fan_after(
            fan_after(
                fan_after(other, CommandView::SetPower(fan.power)),
                CommandView::SetSpeed(fan.speed),
            ),
            CommandView::SetTimer(fan.timer),
        ) == fan,
{
}

/// What is to be done next to publish messages one after the other.
#[derive(Clone, Copy, Debug, PartialEq, Eq)]
pub enum PublishStage {
    /// Publish the message at that position.
    Next(usize),
    /// Nothing: publishing has ended so.
    Done(Result<(), Failure>),
}

impl PublishStage {
    /// Where publishing `n` messages begins.
    pub open spec fn first(n: int) -> PublishStage {
        if n > 0 {
            PublishStage::Next(0)
        } else {
            PublishStage::Done(Ok(()))
        }
    }

    /// What follows once publishing the message that was next came out so, if
    /// there are `n` messages. The first failure is the end.
    pub open spec fn after(self, n: int, outcome: Result<(), Failure>) -> PublishStage {
        match self {
            PublishStage::Next(i) => match outcome {
                Ok(_) => if i + 1 < n {
                    PublishStage::Next((i + 1) as usize)
                } else {
                    PublishStage::Done(Ok(()))
                },
                Err(e) => PublishStage::Done(Err(e)),
            },
            PublishStage::Done(_) => self,
        }
    }
}

/// Messages on their way. All of them were made before the first is sent.
#[derive(Debug)]
pub struct Publishing {
    pub messages: Vec<Publication>,
    pub stage: PublishStage,
}

impl Publishing {
    /// The next message is one of the messages.
    pub open spec fn wf(&self) -> bool {
        self.stage matches PublishStage::Next(i) ==> i < self.messages@.len()
    }

    /// Begins to publish messages, in their order.
    pub fn new(messages: Vec<Publication>) -> (res: Publishing)
        ensures
            res.messages == messages,
            res.stage == PublishStage::first(messages@.len() as int),
            res.wf(),
    {
        let stage = if messages.len() > 0 {
            PublishStage::Next(0)
        } else {
            PublishStage::Done(Ok(()))
        };
        Publishing { messages, stage }
    }

    /// The message to be published next; none once publishing has ended.
    pub fn current(&self) -> (message: Option<&Publication>)
        requires
            self.wf(),
        ensures
            match self.stage {
                PublishStage::Next(i) => message == Some(&self.messages@[i as int]),
                PublishStage::Done(_) => message is None,
            },
    {
        match self.stage {
            PublishStage::Next(i) => Some(&self.messages[i]),
            PublishStage::Done(_) => None,
        }
    }

    /// Publishing the message that was next came out so.
    pub fn on_outcome(&mut self, outcome: Result<(), Failure>)
        requires
            old(self).wf(),
        ensures
            final(self).messages == old(self).messages,
            final(self).stage == old(self).stage.after(old(self).messages@.len() as int, outcome),
            final(self).wf(),
    {
        if let PublishStage::Next(i) = self.stage {
            self.stage = match outcome {
                Ok(_) => if i < self.messages.len() - 1 {
                    PublishStage::Next(i + 1)
                } else {
                    PublishStage::Done(Ok(()))
                },
                Err(e) => PublishStage::Done(Err(e)),
            };
        }
    }
}

/// How far publishing `n` messages is once attempts came out so.
pub open spec fn published(n: int, outcomes: Seq<Result<(), Failure>>) -> PublishStage
    decreases outcomes.len(),
{
    if outcomes.len() == 0 {
        PublishStage::first(n)
    } else {
        published(n, outcomes.drop_last()).after(n, outcomes.last())
    }
}

/// While every attempt succeeds, the messages are published one after the
/// other, each once; and publishing has ended well after the last.
pub proof fn law_messages_go_out_in_order(n: usize, outcomes: Seq<Result<(), Failure>>)
    requires
        forall|i: int| 0 <= i < outcomes.len() && i < n ==> #[trigger] outcomes[i] is Ok,
    ensures
        published(n as int, outcomes) == (if outcomes.len() < n {
            PublishStage::Next(outcomes.len() as usize)
        } else {
            PublishStage::Done(Ok(()))
        }),
    decreases outcomes.len(),
{
    if outcomes.len() > 0 {
        assert(outcomes.last() == outcomes[outcomes.len() - 1]);
        law_messages_go_out_in_order(n, outcomes.drop_last());
    }
}

/// The first attempt that fails ends publishing with its failure: no later
/// message is attempted.
pub proof fn law_first_failure_ends_publishing(
    n: usize,
    outcomes: Seq<Result<(), Failure>>,
    k: int,
    e: Failure,
)
    requires
        0 <= k < outcomes.len(),
        k < n,
        outcomes[k] == Err::<(), Failure>(e),
        forall|i: int| 0 <= i < k ==> #[trigger] outcomes[i] is Ok,
    ensures
        published(n as int, outcomes) == PublishStage::Done(Err(e)),
    decreases outcomes.len(),
{
    let before = outcomes.drop_last();
    if k == outcomes.len() - 1 {
        law_messages_go_out_in_order(n, before);
    } else {
        law_first_failure_ends_publishing(n, before, k, e);
    }
}

/// Publishing ends well if and only if every message was published.
pub proof fn law_success_means_all_were_published(n: usize, outcomes: Seq<Result<(), Failure>>)
    ensures
        published(n as int, outcomes) == PublishStage::Done(Ok(())) <==> {
            &&& outcomes.len() >= n
            &&& forall|i: int| 0 <= i < n ==> #[trigger] outcomes[i] is Ok
        },
{
    if forall|i: int| 0 <= i < outcomes.len() && i < n ==> #[trigger] outcomes[i] is Ok {
        law_messages_go_out_in_order(n, outcomes);
    } else {
        let i = choose|i: int|
            0 <= i < outcomes.len() && i < n && !(#[trigger] outcomes[i] is Ok);
        let k = lemma_first_failure(outcomes, i);
        law_first_failure_ends_publishing(n, outcomes, k, outcomes[k]->Err_0);
    }
}

proof fn lemma_first_failure(outcomes: Seq<Result<(), Failure>>, i: int) -> (k: int)
    requires
        0 <= i < outcomes.len(),
        outcomes[i] is Err,
    ensures
        0 <= k <= i,
        outcomes[k] is Err,
        forall|j: int| 0 <= j < k ==> #[trigger] outcomes[j] is Ok,
    decreases i,
{
    if forall|j: int| 0 <= j < i ==> #[trigger] outcomes[j] is Ok {
        i
    } else {
        let j = choose|j: int| 0 <= j < i && !(#[trigger] outcomes[j] is Ok);
        lemma_first_failure(outcomes, j)
    }
}

/// A report names each setting of the fan, and that the controller is on line,
/// once and in this order, each with what is remembered.
pub proof fn law_reports_are_complete(fan: Fan)
    ensures
        state_members(fan).len() == 5,
        state_members(fan)[0] == ("power"@, AttributeView::Flag(fan.power)),
        state_members(fan)[1] == ("speed_lvl"@, AttributeView::Text(fan.speed_lvl.label())),
        state_members(fan)[2] == ("speed"@, AttributeView::Level(fan.speed as u64)),
        state_members(fan)[3] == ("timer"@, AttributeView::Text(fan.timer.label())),
        state_members(fan)[4] == ("status"@, AttributeView::Text("online"@)),
{
}

/// Whoever reads a report that is right of two fans reads the same power,
/// percentage, speed setting and timer of both: a report tells states apart.
pub proof fn law_reports_tell_states_apart(data: Seq<u8>, fan: Fan, other: Fan)
    ensures
        reports(data, fan) && reports(data, other) ==> fan == other,
        reports(data, fan) ==> json_member_of(data, "status"@) == Some(JsonView::Text("online"@)),
        reports(data, fan) ==> json_member_of(data, "speed_lvl"@) == Some(
            JsonView::Text(fan.speed_lvl.label()),
        ),
{
    crate::json::law_timer_names_read_back(fan.timer);
    crate::json::law_timer_names_read_back(other.timer);
    reveal_strlit("Low");
    reveal_strlit("Med");
    reveal_strlit("High");
    assert("Low"@[0] == 'L' && "Med"@[0] == 'M' && "High"@[0] == 'H');
}

/// Where the messages of a controller go, and how: the state is to arrive
/// exactly once and a message for a maintainer at least once, as it is, and
/// the broker keeps neither.
pub proof fn law_messages_go_where_they_belong(base: Seq<char>, fan: Fan, msg: Seq<char>)
    ensures
        state_report(base, fan).topic == base + "/fan/state"@,
        state_report(base, fan).qos == Delivery::ExactlyOnce,
        !state_report(base, fan).retain,
        state_report(base, fan).payload == json_object_text(state_members(fan)),
        log_report(base, msg).topic == base + "/log"@,
        log_report(base, msg).qos == Delivery::AtLeastOnce,
        !log_report(base, msg).retain,
        log_report(base, msg).payload == msg,
{
}

/// An entity is announced under its kind and its unique name, and only a text
/// is such a name.
pub proof fn law_names_make_topics(
    component: Seq<char>,
    uniq_id: Option<JsonView>,
    object_id: Seq<char>,
)
    ensures
        announcement_topic(component, Some(JsonView::Text(object_id))) == Some(
            "homeassistant/"@ + component + "/"@ + object_id + "/config"@,
        ),
        announcement_topic(component, uniq_id) is Some <==> (uniq_id matches Some(json)
            && json is Text),
{
    reveal_strlit("homeassistant");
    reveal_strlit("/");
    reveal_strlit("homeassistant/");
    assert(DISCOVERY_PREFIX@ + "/"@ =~= "homeassistant/"@);
}

/// What is sent is what the view of a message says.
pub proof fn law_publications_are_kept(p: Publication)
    ensures
        p@.topic == p.topic@,
        p@.qos == p.qos,
        p@.retain == p.retain,
        p@.payload == p.payload@,
{
}

/// Publishing begins with the first message, if there is one. It goes on to
/// the next one just after a success and while there is one, and otherwise
/// ends as the last attempt did.
pub proof fn law_publishing_goes_on(n: usize, i: usize, outcome: Result<(), Failure>)
    ensures
        PublishStage::first(n as int) == PublishStage::Next(0) <==> n > 0,
        PublishStage::first(n as int) == PublishStage::Done(Ok(())) <==> n == 0,
        PublishStage::Next(i).after(n as int, outcome) is Next <==> outcome is Ok && i + 1 < n,
        PublishStage::Next(i).after(n as int, outcome) matches PublishStage::Next(j) ==> j == i + 1,
        PublishStage::Next(i).after(n as int, outcome) matches PublishStage::Done(res) ==> {
            &&& res is Ok <==> outcome is Ok
            &&& res matches Err(e) ==> outcome == Err::<(), Failure>(e)
        },
{
}

} // verus!
