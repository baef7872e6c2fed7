//! How the fan is announced to Home Assistant, and why what is announced is
//! what the controller serves.

use vstd::prelude::*;
use vstd::utf8::encode_utf8;

use crate::app::App;
use crate::common::DISCOVERY_PREFIX;
use crate::json::{json_member_of, JsonView};
use crate::mqtt::{subject_of, Setting, Subject};
use crate::publish::{
    announcement_topic, joined, state_topic, subscribed, Delivery, Publication, PublicationView,
    PublishStage, Publishing,
};
use crate::state::Timer;

verus! {

// The topics of the entities; `~` stands for the entity's topic prefix.

pub const STATE_TOPIC: &'static str = "~/state";

pub const POWER_COMMAND_TOPIC: &'static str = "~/set";

pub const SPEED_COMMAND_TOPIC: &'static str = "~/speed/set";

pub const TIMER_COMMAND_TOPIC: &'static str = "~/timer/set";

/// What an entity belongs to.
#[derive(Debug)]
pub struct DeviceInfo {
    pub model: &'static str,
    pub identifier: String,
    pub manufacturer: &'static str,
}

/// How it is known whether an entity is on line.
#[derive(Debug)]
pub struct AvailabilityInfo {
    pub topic: &'static str,
    pub value_template: &'static str,
}

/// What an entity is for, besides what it shows and does.
#[derive(Clone, Copy, Debug, PartialEq, Eq, Structural)]
pub enum Category {
    Config,
    Diagnostic,
}

/// What every entity is described by.
#[derive(Debug)]
pub struct EntityInfo {
    pub topic_prefix: String,
    pub device: DeviceInfo,
    pub icon: &'static str,
    pub unique_id: String,
    pub object_id: String,
    pub category: Category,
    pub enabled_by_default: bool,
    pub qos: Delivery,
    pub availability: AvailabilityInfo,
    pub name: &'static str,
}

/// The fan, with its power and its speed.
#[derive(Debug)]
pub struct FanEntity {
    pub info: EntityInfo,
    pub state_topic: &'static str,
    pub state_value_template: &'static str,
    pub command_topic: &'static str,
    pub command_template: &'static str,
    pub payload_on: &'static str,
    pub payload_off: &'static str,
    pub percentage_state_topic: &'static str,
    pub percentage_value_template: &'static str,
    pub percentage_command_topic: &'static str,
    pub percentage_command_template: &'static str,
}

/// The choice of a timer setting.
#[derive(Debug)]
pub struct TimerEntity {
    pub info: EntityInfo,
    pub options: Vec<&'static str>,
    pub state_topic: &'static str,
    pub value_template: &'static str,
    pub command_topic: &'static str,
    pub command_template: &'static str,
}

/// The topic prefix of the entities.
pub open spec fn entity_prefix(base: Seq<char>) -> Seq<char> {
    base + "/fan"@
}

impl EntityInfo {
    /// The description is that of the entity with a given icon and name, and
    /// with the controller's own name, followed by `suffix`, as its unique
    /// one.
    pub open spec fn describes(
        &self,
        app: App,
        icon: Seq<char>,
        suffix: Seq<char>,
        name: Seq<char>,
    ) -> bool {
        &&& self.topic_prefix@ == entity_prefix(app.base_topic@)
        &&& self.device.model@ == "173"@
        &&& self.device.identifier@ == app.client_id@
        &&& self.device.manufacturer@ == "Vornado"@
        &&& self.icon@ == icon
        &&& self.unique_id@ == app.client_id@ + suffix
        &&& self.object_id@ == app.client_id@ + suffix
        &&& self.category == Category::Config
        &&& self.enabled_by_default
        &&& self.qos == Delivery::ExactlyOnce
        &&& self.availability.topic@ == STATE_TOPIC@
        &&& self.availability.value_template@ == "{{ value_json.status }}"@
        &&& self.name@ == name
    }
}

/// The timer settings that can be chosen, in their order.
pub open spec fn timer_options() -> Seq<Seq<char>> {
    seq![
        Timer::Off.label(),
        Timer::T1.label(),
        Timer::T2.label(),
        Timer::T4.label(),
        Timer::T8.label(),
    ]
}

/// The message that announces an entity of a kind, given its attributes as a
/// JSON text: none where the attributes hold no unique name.
pub open spec fn announcement(component: Seq<char>, attributes: Seq<char>) -> Option<
    PublicationView,
> {
    match announcement_topic(component, json_member_of(encode_utf8(attributes), "uniq_id"@)) {
        Some(topic) => Some(
            PublicationView {
                topic,
                qos: Delivery::ExactlyOnce,
                retain: true,
                payload: attributes,
            },
        ),
        None => None,
    }
}

impl App {
    fn entity_info(&self, icon: &'static str, suffix: &str, name: &'static str) -> (info: EntityInfo)
        ensures
            info.describes(*self, icon@, suffix@, name@),
    {
        EntityInfo {
            topic_prefix: joined(self.base_topic.as_str(), "/fan"),
            device: DeviceInfo {
                model: "173",
                identifier: self.client_id.clone(),
                manufacturer: "Vornado",
            },
            icon,
            unique_id: joined(self.client_id.as_str(), suffix),
            object_id: joined(self.client_id.as_str(), suffix),
            category: Category::Config,
            enabled_by_default: true,
            qos: Delivery::ExactlyOnce,
            availability: AvailabilityInfo {
                topic: STATE_TOPIC,
                value_template: "{{ value_json.status }}",
            },
            name,
        }
    }

    /// The description of the fan.
    pub fn fan_entity(&self) -> (e: FanEntity)
        ensures
            e.info.describes(*self, "mdi:fan"@, "_fan"@, "Fan"@),
            e.state_topic@ == STATE_TOPIC@,
            e.state_value_template@ == "{{ value_json.power | string() }}"@,
            e.command_topic@ == POWER_COMMAND_TOPIC@,
            e.command_template@ == "{ \"power\": {{ value.lower() }} }"@,
            e.payload_on@ == "True"@,
            e.payload_off@ == "False"@,
            e.percentage_state_topic@ == STATE_TOPIC@,
            e.percentage_value_template@ == "{{ value_json.speed }}"@,
            e.percentage_command_topic@ == SPEED_COMMAND_TOPIC@,
            e.percentage_command_template@ == "{ \"speed\": {{ value }} }"@,
    {
        FanEntity {
            info: self.entity_info("mdi:fan", "_fan", "Fan"),
            state_topic: STATE_TOPIC,
            state_value_template: "{{ value_json.power | string() }}",
            command_topic: POWER_COMMAND_TOPIC,
            command_template: "{ \"power\": {{ value.lower() }} }",
            payload_on: "True",
            payload_off: "False",
            percentage_state_topic: STATE_TOPIC,
            percentage_value_template: "{{ value_json.speed }}",
            percentage_command_topic: SPEED_COMMAND_TOPIC,
            percentage_command_template: "{ \"speed\": {{ value }} }",
        }
    }

    /// The description of the choice of a timer setting.
    pub fn timer_entity(&self) -> (e: TimerEntity)
        ensures
            e.info.describes(*self, "mdi:fan-clock"@, "_timer"@, "Auto-off Timer"@),
            e.options@.map_values(|o: &'static str| o@) == timer_options(),
            e.state_topic@ == STATE_TOPIC@,
            e.value_template@ == "{{ value_json.timer }}"@,
            e.command_topic@ == TIMER_COMMAND_TOPIC@,
            e.command_template@ == "{ \"timer\": \"{{ value }}\" }"@,
    {
        let options: Vec<&'static str> = vec![
            Timer::Off.name(),
            Timer::T1.name(),
            Timer::T2.name(),
            Timer::T4.name(),
            Timer::T8.name(),
        ];
        assert(options@.map_values(|o: &'static str| o@) =~= timer_options());
        TimerEntity {
            info: self.entity_info("mdi:fan-clock", "_timer", "Auto-off Timer"),
            options,
            state_topic: STATE_TOPIC,
            value_template: "{{ value_json.timer }}",
            command_topic: TIMER_COMMAND_TOPIC,
            command_template: "{ \"timer\": \"{{ value }}\" }",
        }
    }

    /// The message that announces an entity, given the kind of the entity and
    /// its attributes as a JSON text; none where the attributes hold no unique
    /// name. The broker keeps it.
    pub fn discover_message(&self, component: &str, attributes: &str) -> (res: Option<Publication>)
        ensures
            match res {
                Some(p) => announcement(component@, attributes@) == Some(p@),
                None => announcement(component@, attributes@) is None,
            },
    {
        match self.create_discover_payload(component, attributes) {
            Some((topic, payload)) => Some(
                Publication { topic, qos: Delivery::ExactlyOnce, retain: true, payload },
            ),
            None => None,
        }
    }

    /// Begins to announce the fan and then the choice of a timer setting,
    /// given for each the kind of the entity and its attributes as a JSON
    /// text. None where either has no unique name: then neither is announced.
    pub fn announcing(
        &self,
        fan_component: &str,
        fan_attributes: &str,
        timer_component: &str,
        timer_attributes: &str,
    ) -> (res: Option<Publishing>)
        ensures
            match res {
                Some(publishing) => {
                    &&& publishing.messages@.len() == 2
                    &&& announcement(fan_component@, fan_attributes@) == Some(
                        publishing.messages@[0]@,
                    )
                    &&& announcement(timer_component@, timer_attributes@) == Some(
                        publishing.messages@[1]@,
                    )
                    &&& publishing.stage == PublishStage::Next(0)
                    &&& publishing.wf()
                },
                None => announcement(fan_component@, fan_attributes@) is None || announcement(
                    timer_component@,
                    timer_attributes@,
                ) is None,
            },
    {
        let fan = match self.discover_message(fan_component, fan_attributes) {
            Some(fan) => fan,
            None => return None,
        };
        let timer = match self.discover_message(timer_component, timer_attributes) {
            Some(timer) => timer,
            None => return None,
        };
        Some(Publishing::new(vec![fan, timer]))
    }
}

/// An entity whose attributes hold the unique name that it is described with
/// is announced under that name: the controller's own, followed by `suffix`.
pub proof fn law_entities_are_announced_by_name(
    info: EntityInfo,
    app: App,
    icon: Seq<char>,
    suffix: Seq<char>,
    name: Seq<char>,
    component: Seq<char>,
    attributes: Seq<char>,
)
    requires
        info.describes(app, icon, suffix, name),
    ensures
        json_member_of(encode_utf8(attributes), "uniq_id"@) == Some(
            JsonView::Text(info.unique_id@),
        ) ==> announcement(component, attributes) == Some(
            PublicationView {
                topic: "homeassistant/"@ + component + "/"@ + app.client_id@ + suffix + "/config"@,
                qos: Delivery::ExactlyOnce,
                retain: true,
                payload: attributes,
            },
        ),
{
    reveal_strlit("homeassistant");
    reveal_strlit("/");
    reveal_strlit("homeassistant/");
    assert(DISCOVERY_PREFIX@ + "/"@ =~= "homeassistant/"@);
    assert("homeassistant/"@ + component + "/"@ + (app.client_id@ + suffix)
        =~= "homeassistant/"@ + component + "/"@ + app.client_id@ + suffix);
}

/// The topic that an entity with a topic prefix means.
pub open spec fn expanded(prefix: Seq<char>, topic: Seq<char>) -> Seq<char> {
    if topic.len() > 0 && topic[0] == '~' {
        prefix + topic.skip(1)
    } else {
        topic
    }
}

proof fn lemma_local_topic(base: Seq<char>, local: Seq<char>)
    ensures
        crate::text::without_prefix(base + local, base) == local,
{
    assert(base.is_prefix_of(base + local)) by {
        assert((base + local).subrange(0, base.len() as int) =~= base);
    }
    assert((base + local).skip(base.len() as int) =~= local);
}

proof fn lemma_subjects()
    ensures
        forall|base: Seq<char>, topic: Seq<char>|
            #![trigger subject_of(base, topic)]
            {
                let local = crate::text::without_prefix(topic, base);
                &&& local == "/fan/set"@ ==> subject_of(base, topic) == Subject::Request(
                    Setting::Power,
                )
                &&& local == "/fan/speed/set"@ ==> subject_of(base, topic) == Subject::Request(
                    Setting::Speed,
                )
                &&& local == "/fan/timer/set"@ ==> subject_of(base, topic) == Subject::Request(
                    Setting::Timer,
                )
            },
{
    reveal_strlit("/fan/set");
    reveal_strlit("/fan/speed/set");
    reveal_strlit("/fan/timer/set");
    assert("/fan/set"@.len() == 8);
    assert("/fan/speed/set"@[5] == 's');
    assert("/fan/timer/set"@[5] == 't');
}

/// Whoever follows the announcement reaches the controller: the topics
/// announced for requests are those under which the controller serves just
/// these requests, and the one announced for the state is the one under which
/// the controller publishes it.
pub proof fn law_announced_topics_are_served(base: Seq<char>)
    ensures
        subject_of(base, expanded(entity_prefix(base), POWER_COMMAND_TOPIC@)) == Subject::Request(
            Setting::Power,
        ),
        subject_of(base, expanded(entity_prefix(base), SPEED_COMMAND_TOPIC@)) == Subject::Request(
            Setting::Speed,
        ),
        subject_of(base, expanded(entity_prefix(base), TIMER_COMMAND_TOPIC@)) == Subject::Request(
            Setting::Timer,
        ),
        expanded(entity_prefix(base), STATE_TOPIC@) == state_topic(base),
{
    reveal_strlit("~/set");
    reveal_strlit("~/speed/set");
    reveal_strlit("~/timer/set");
    reveal_strlit("~/state");
    reveal_strlit("/fan");
    reveal_strlit("/fan/set");
    reveal_strlit("/fan/speed/set");
    reveal_strlit("/fan/timer/set");
    reveal_strlit("/fan/state");
    assert("/fan"@ + "~/set"@.skip(1) =~= "/fan/set"@);
    assert("/fan"@ + "~/speed/set"@.skip(1) =~= "/fan/speed/set"@);
    assert("/fan"@ + "~/timer/set"@.skip(1) =~= "/fan/timer/set"@);
    assert("/fan"@ + "~/state"@.skip(1) =~= "/fan/state"@);
    assert(base + "/fan"@ + "~/set"@.skip(1) =~= base + "/fan/set"@);
    assert(base + "/fan"@ + "~/speed/set"@.skip(1) =~= base + "/fan/speed/set"@);
    assert(base + "/fan"@ + "~/timer/set"@.skip(1) =~= base + "/fan/timer/set"@);
    assert(base + "/fan"@ + "~/state"@.skip(1) =~= base + "/fan/state"@);
    lemma_local_topic(base, "/fan/set"@);
    lemma_local_topic(base, "/fan/speed/set"@);
    lemma_local_topic(base, "/fan/timer/set"@);
    lemma_subjects();
}

/// Every timer setting can be chosen, and whatever is chosen is a timer
/// setting.
pub proof fn law_options_are_the_timers(timer: Timer, i: int)
    requires
        0 <= i < timer_options().len(),
    ensures
        timer_options().contains(timer.label()),
        Timer::of_label(timer_options()[i]) is Some,
        Timer::of_label(timer_options()[i])->0.rank() == i,
{
    assert(timer_options()[timer.rank()] == timer.label());
    let chosen = if i == 0 {
        Timer::Off
    } else if i == 1 {
        Timer::T1
    } else if i == 2 {
        Timer::T2
    } else if i == 3 {
        Timer::T4
    } else {
        Timer::T8
    };
    crate::json::law_timer_names_read_back(chosen);
}

/// Where the level of `topic` that holds position `j` ends.
pub open spec fn level_end(topic: Seq<char>, j: int) -> int
    decreases topic.len() - j,
{
    if 0 <= j < topic.len() && topic[j] != '/' {
        level_end(topic, j + 1)
    } else {
        j
    }
}

/// The rest of `filter` from `i` on matches the rest of `topic` from `j` on.
pub open spec fn rest_matches(filter: Seq<char>, i: int, topic: Seq<char>, j: int) -> bool
    decreases filter.len() - i,
{
    if i < 0 || i >= filter.len() {
        j == topic.len()
    } else if filter[i] == '+' {
        rest_matches(filter, i + 1, topic, level_end(topic, j))
    } else {
        0 <= j < topic.len() && topic[j] == filter[i] && rest_matches(filter, i + 1, topic, j + 1)
    }
}

/// A subscription to `filter` covers `topic`. A `+` stands for one level of
/// the topic, and every other character for itself.
pub open spec fn covers(filter: Seq<char>, topic: Seq<char>) -> bool {
    rest_matches(filter, 0, topic, 0)
}

proof fn lemma_level_end_shifts(base: Seq<char>, topic: Seq<char>, j: int)
    requires
        0 <= j <= topic.len(),
    ensures
        level_end(base + topic, base.len() + j) == base.len() + level_end(topic, j),
        j <= level_end(topic, j) <= topic.len(),
    decreases topic.len() - j,
{
    if j < topic.len() && topic[j] != '/' {
        lemma_level_end_shifts(base, topic, j + 1);
    }
}

proof fn lemma_rest_shifts(base: Seq<char>, filter: Seq<char>, i: int, topic: Seq<char>, j: int)
    requires
        0 <= i <= filter.len(),
        0 <= j <= topic.len(),
    ensures
        rest_matches(base + filter, base.len() + i, base + topic, base.len() + j) == rest_matches(
            filter,
            i,
            topic,
            j,
        ),
    decreases filter.len() - i,
{
    if i < filter.len() {
        if filter[i] == '+' {
            lemma_level_end_shifts(base, topic, j);
            lemma_rest_shifts(base, filter, i + 1, topic, level_end(topic, j));
        } else if j < topic.len() && topic[j] == filter[i] {
            lemma_rest_shifts(base, filter, i + 1, topic, j + 1);
        }
    }
}

proof fn lemma_base_matches(base: Seq<char>, filter: Seq<char>, topic: Seq<char>, k: int)
    requires
        !base.contains('+'),
        0 <= k <= base.len(),
    ensures
        rest_matches(base + filter, k, base + topic, k) == rest_matches(
            base + filter,
            base.len() as int,
            base + topic,
            base.len() as int,
        ),
    decreases base.len() - k,
{
    if k < base.len() {
        assert((base + filter)[k] == base[k]);
        assert((base + topic)[k] == base[k]);
        lemma_base_matches(base, filter, topic, k + 1);
    }
}

proof fn lemma_covers_below_base(base: Seq<char>, filter: Seq<char>, topic: Seq<char>)
    requires
        !base.contains('+'),
    ensures
        covers(base + filter, base + topic) == covers(filter, topic),
{
    lemma_base_matches(base, filter, topic, 0);
    lemma_rest_shifts(base, filter, 0, topic, 0);
}

proof fn lemma_local_covers()
    ensures
        covers("/+/set"@, "/fan/set"@),
        covers("/+/+/set"@, "/fan/speed/set"@),
        covers("/+/+/set"@, "/fan/timer/set"@),
        covers("/admin/+"@, "/admin/reboot"@),
        covers("/admin/+"@, "/admin/ota"@),
{
    reveal_strlit("/+/set");
    reveal_strlit("/+/+/set");
    reveal_strlit("/admin/+");
    reveal_strlit("/fan/set");
    reveal_strlit("/fan/speed/set");
    reveal_strlit("/fan/timer/set");
    reveal_strlit("/admin/reboot");
    reveal_strlit("/admin/ota");
    reveal_with_fuel(level_end, 8);
    reveal_with_fuel(rest_matches, 10);
}

proof fn lemma_covers_itself(topic: Seq<char>, k: int)
    requires
        !topic.contains('+'),
        0 <= k <= topic.len(),
    ensures
        rest_matches(topic, k, topic, k),
    decreases topic.len() - k,
{
    if k < topic.len() {
        assert(topic.contains(topic[k]));
        lemma_covers_itself(topic, k + 1);
    }
}

/// The controller hears what it serves: every topic of its own that it makes
/// anything of, and the one of Home Assistant, is covered by a subscription.
pub proof fn law_served_topics_are_subscribed(base: Seq<char>, topic: Seq<char>)
    requires
        !base.contains('+'),
        ({
            ||| base.is_prefix_of(topic) && (subject_of(base, topic) is Request || subject_of(
                base,
                topic,
            ) is Reboot || subject_of(base, topic) is Update)
            ||| topic == "homeassistant/status"@
        }),
    ensures
        exists|i: int|
            0 <= i < subscribed(base).len() && covers(#[trigger] subscribed(base)[i], topic),
{
    let subs = subscribed(base);
    if topic == "homeassistant/status"@ {
        reveal_strlit("homeassistant/status");
        reveal_strlit("homeassistant");
        reveal_strlit("/status");
        assert(DISCOVERY_PREFIX@ + "/status"@ =~= "homeassistant/status"@);
        lemma_covers_itself("homeassistant/status"@, 0);
        assert(covers(subs[0], topic));
    } else {
        let local = topic.skip(base.len() as int);
        assert(topic =~= base + local);
        lemma_local_covers();
        lemma_covers_below_base(base, "/+/set"@, local);
        lemma_covers_below_base(base, "/+/+/set"@, local);
        lemma_covers_below_base(base, "/admin/+"@, local);
        assert(covers(subs[1], topic) || covers(subs[2], topic) || covers(subs[3], topic));
    }
}

/// What the description of an entity says: where its topics are, that it
/// belongs to this controller, and how it is known to be on line.
pub proof fn law_descriptions_say_this(
    info: EntityInfo,
    app: App,
    icon: Seq<char>,
    suffix: Seq<char>,
    name: Seq<char>,
)
    requires
        info.describes(app, icon, suffix, name),
    ensures
        info.topic_prefix@ == app.base_topic@ + "/fan"@,
        info.device.model@ == "173"@,
        info.device.manufacturer@ == "Vornado"@,
        info.device.identifier@ == app.client_id@,
        info.icon@ == icon,
        info.unique_id@ == app.client_id@ + suffix,
        info.object_id@ == info.unique_id@,
        info.category == Category::Config,
        info.enabled_by_default,
        info.qos == Delivery::ExactlyOnce,
        expanded(info.topic_prefix@, info.availability.topic@) == state_topic(app.base_topic@),
        info.availability.value_template@ == "{{ value_json.status }}"@,
        info.name@ == name,
{
    law_announced_topics_are_served(app.base_topic@);
}

/// An entity is announced if and only if its attributes hold a text as its
/// unique name, and then with its attributes as they are, exactly once, and
/// for the broker to keep.
pub proof fn law_announcements_are_kept(component: Seq<char>, attributes: Seq<char>)
    ensures
        announcement(component, attributes) is Some <==> (json_member_of(
            encode_utf8(attributes),
            "uniq_id"@,
        ) matches Some(json) && json is Text),
        announcement(component, attributes) matches Some(p) ==> {
            &&& p.payload == attributes
            &&& p.qos == Delivery::ExactlyOnce
            &&& p.retain
        },
{
}

} // verus!
