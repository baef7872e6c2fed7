//! The JSON texts that are read and written, as far as they are looked into.

use vstd::prelude::*;
use vstd::utf8::encode_utf8;

use serde_json::Value;

use crate::state::Timer;
use crate::text::same_text;

verus! {

/// A value in a JSON text.
#[derive(Debug)]
pub enum Json {
    Null,
    Bool(bool),
    /// A number; its value, if it is an integer that a `u64` holds.
    Number(Option<u64>),
    Text(String),
    Array,
    /// An object: its keys, each with whether its value is null.
    Object(Vec<(String, bool)>),
}

/// A value in a JSON text.
pub enum JsonView {
    Null,
    Bool(bool),
    Number(Option<u64>),
    Text(Seq<char>),
    Array,
    Object(Seq<(Seq<char>, bool)>),
}

impl View for Json {
    type V = JsonView;

    open spec fn view(&self) -> JsonView {
        match self {
            Json::Null => JsonView::Null,
            Json::Bool(b) => JsonView::Bool(*b),
            Json::Number(n) => JsonView::Number(*n),
            Json::Text(t) => JsonView::Text(t@),
            Json::Array => JsonView::Array,
            Json::Object(entries) => JsonView::Object(
                entries@.map_values(|e: (String, bool)| (e.0@, e.1)),
            ),
        }
    }
}

/// A value that is written into a JSON object.
#[derive(Debug)]
pub enum Attribute {
    Flag(bool),
    Level(u64),
    Text(String),
}

/// A value that is written into a JSON object.
pub enum AttributeView {
    Flag(bool),
    Level(u64),
    Text(Seq<char>),
}

impl View for Attribute {
    type V = AttributeView;

    open spec fn view(&self) -> AttributeView {
        match self {
            Attribute::Flag(b) => AttributeView::Flag(*b),
            Attribute::Level(n) => AttributeView::Level(*n),
            Attribute::Text(t) => AttributeView::Text(t@),
        }
    }
}

impl AttributeView {
    /// The value as it is read from a JSON text.
    pub open spec fn as_json(self) -> JsonView {
        match self {
            AttributeView::Flag(b) => JsonView::Bool(b),
            AttributeView::Level(n) => JsonView::Number(Some(n)),
            AttributeView::Text(t) => JsonView::Text(t),
        }
    }
}

/// The members of an object that is written: keys and values.
pub open spec fn members(entries: Seq<(String, Attribute)>) -> Seq<(Seq<char>, AttributeView)> {
    entries.map_values(|e: (String, Attribute)| (e.0@, e.1@))
}

/// No key occurs twice.
pub open spec fn keys_distinct(members: Seq<(Seq<char>, AttributeView)>) -> bool {
    forall|i: int, j: int|
        0 <= i < j < members.len() ==> #[trigger] members[i].0 != #[trigger] members[j].0
}

/// Why a text is no JSON.
#[verifier::external_type_specification]
#[verifier::external_body]
pub struct ExJsonError(serde_json::Error);

/// The value at `key` of the JSON text in `data`, as `serde_json::from_slice`
/// reads the text and `serde_json::Value` is indexed: null where the text is
/// no object, or one without that key; none where the text is no JSON.
pub uninterp spec fn json_member_of(data: Seq<u8>, key: Seq<char>) -> Option<JsonView>;

/// Reads `data` with `serde_json::from_slice` into a `serde_json::Value` and
/// indexes it by `key`. What comes back is determined by the two and is named
/// `json_member_of`; nothing more is claimed of it. A number is handed on by
/// `Number::as_u64`, an object by its keys and whether each value is null, and
/// an array without its items.
#[verifier::external_body]
pub(crate) fn json_member(data: &[u8], key: &str) -> (res: Result<Json, serde_json::Error>)
    ensures
        match res {
            Ok(json) => json_member_of(data@, key@) == Some(json@),
            Err(_) => json_member_of(data@, key@) is None,
        },
{
    let value: Value = serde_json::from_slice(data)?;
    Ok(match &value[key] {
        Value::Null => Json::Null,
        Value::Bool(b) => Json::Bool(*b),
        Value::Number(n) => Json::Number(n.as_u64()),
        Value::String(t) => Json::Text(t.clone()),
        Value::Array(_) => Json::Array,
        Value::Object(map) => Json::Object(map.iter().map(|(k, v)| (k.clone(), v.is_null())).collect()),
    })
}

/// The text of a JSON object with these members, as `serde_json::to_string`
/// writes a `serde_json::Map` into which they were put in their order.
pub uninterp spec fn json_object_text(members: Seq<(Seq<char>, AttributeView)>) -> Seq<char>;

/// Collects `entries` into a `serde_json::Map` and writes it with
/// `serde_json::to_string`. The text is determined by the entries and is named
/// `json_object_text`. Claimed of it besides: where no key occurs twice, the
/// text reads back, that is, each key gives the value that it was written
/// with.
#[verifier::external_body]
pub(crate) fn json_object(entries: &Vec<(String, Attribute)>) -> (text: String)
    ensures
        text@ == json_object_text(members(entries@)),
        keys_distinct(members(entries@)) ==> forall|i: int|
            0 <= i < entries@.len() ==> json_member_of(
                encode_utf8(text@),
                #[trigger] members(entries@)[i].0,
            ) == Some(members(entries@)[i].1.as_json()),
{
    let map: serde_json::Map<String, Value> = entries.iter().map(|(k, a)| (k.clone(), match a {
        Attribute::Flag(b) => Value::Bool(*b),
        Attribute::Level(n) => Value::from(*n),
        Attribute::Text(t) => Value::String(t.clone()),
    })).collect();
    serde_json::to_string(&map).unwrap()
}

/// The timer setting that a JSON value stands for: a name, or an object whose
/// only key is a name and whose value there is null.
pub open spec fn timer_in(json: JsonView) -> Option<Timer> {
    match json {
        JsonView::Text(name) => Timer::of_label(name),
        JsonView::Object(entries) => if entries.len() == 1 && entries[0].1 {
            Timer::of_label(entries[0].0)
        } else {
            None
        },
        _ => None,
    }
}

impl Timer {
    /// The setting of that name, if there is one.
    pub fn from_name(name: &str) -> (timer: Option<Timer>)
        ensures
            timer == Timer::of_label(name@),
    {
        if same_text(name, Timer::Off.name()) {
            Some(Timer::Off)
        } else if same_text(name, Timer::T1.name()) {
            Some(Timer::T1)
        } else if same_text(name, Timer::T2.name()) {
            Some(Timer::T2)
        } else if same_text(name, Timer::T4.name()) {
            Some(Timer::T4)
        } else if same_text(name, Timer::T8.name()) {
            Some(Timer::T8)
        } else {
            None
        }
    }

    /// The setting that a JSON value stands for.
    pub fn from_json(json: &Json) -> (timer: Option<Timer>)
        ensures
            timer == timer_in(json@),
    {
        match json {
            Json::Text(name) => Timer::from_name(name.as_str()),
            Json::Object(entries) => if entries.len() == 1 && entries[0].1 {
                Timer::from_name(entries[0].0.as_str())
            } else {
                None
            },
            _ => None,
        }
    }
}

/// Every timer setting is found again under the name that it is reported by,
/// so that no two settings share a name.
pub proof fn law_timer_names_read_back(timer: Timer)
    ensures
        Timer::of_label(timer.label()) == Some(timer),
        timer_in(JsonView::Text(timer.label())) == Some(timer),
{
    reveal_strlit("Off");
    reveal_strlit("1 hr");
    reveal_strlit("2 hr");
    reveal_strlit("4 hr");
    reveal_strlit("8 hr");
    assert("1 hr"@[0] == '1' && "2 hr"@[0] == '2' && "4 hr"@[0] == '4' && "8 hr"@[0] == '8');
}

/// A timer setting is meant by its name and by nothing else: as a text, or as
/// the only key of an object whose value there is null.
pub proof fn law_timers_are_meant_by_name(json: JsonView, name: Seq<char>, timer: Timer)
    ensures
        Timer::of_label(name) == Some(timer) <==> name == timer.label(),
        timer_in(json) == Some(timer) <==> {
            ||| json == JsonView::Text(timer.label())
            ||| json matches JsonView::Object(entries) && entries.len() == 1 && entries[0].1
                && entries[0].0 == timer.label()
        },
{
    law_timer_names_read_back(timer);
    if let JsonView::Object(entries) = json {
        if entries.len() == 1 {
            law_timer_names_read_back(timer);
        }
    }
}

/// What is written into an object is kept: the members are the entries, in
/// their order, and each value is read as what it was.
pub proof fn law_members_are_the_entries(entries: Seq<(String, Attribute)>, i: int)
    requires
        0 <= i < entries.len(),
    ensures
        members(entries).len() == entries.len(),
        members(entries)[i].0 == entries[i].0@,
        match entries[i].1 {
            Attribute::Flag(b) => members(entries)[i].1.as_json() == JsonView::Bool(b),
            Attribute::Level(n) => members(entries)[i].1.as_json() == JsonView::Number(Some(n)),
            Attribute::Text(t) => members(entries)[i].1.as_json() == JsonView::Text(t@),
        },
{
}

/// Nothing that is looked into gets lost between a JSON value and its view.
pub proof fn law_json_is_kept(json: Json)
    ensures
        json is Null <==> json@ is Null,
        json is Array <==> json@ is Array,
        json matches Json::Bool(b) ==> json@ == JsonView::Bool(b),
        json matches Json::Number(n) ==> json@ == JsonView::Number(n),
        json matches Json::Text(t) ==> json@ == JsonView::Text(t@),
        json matches Json::Object(entries) ==> {
            &&& json@ matches JsonView::Object(view)
            &&& view.len() == entries@.len()
            &&& forall|i: int|
                0 <= i < view.len() ==> (#[trigger] view[i]) == (entries@[i].0@, entries@[i].1)
        },
{
}

} // verus!
