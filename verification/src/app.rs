//! The controller as others see it: its identity, its settings, and the
//! signals that its tasks send each other.

use vstd::prelude::*;

use crate::common::MQTT_TOPIC;

verus! {

/// What a controller is built for. All of it is empty unless it is set.
#[derive(Clone, Copy, Debug)]
pub struct Config {
    pub mqtt_host: &'static str,
    pub mqtt_user: &'static str,
    pub mqtt_pass: &'static str,
    pub wifi_ssid: &'static str,
    pub wifi_pass: &'static str,
}

impl Default for Config {
    fn default() -> (config: Config)
        ensures
            config.mqtt_host@ == ""@,
            config.mqtt_user@ == ""@,
            config.mqtt_pass@ == ""@,
            config.wifi_ssid@ == ""@,
            config.wifi_pass@ == ""@,
    {
        Config { mqtt_host: "", mqtt_user: "", mqtt_pass: "", wifi_ssid: "", wifi_pass: "" }
    }
}

/// What the sending task is asked to do.
#[derive(Debug)]
pub enum SignalType {
    /// Announce the fan to Home Assistant.
    Discover,
    /// Publish the state of the fan.
    Publish,
    /// Subscribe to the topics again.
    Resubscribe,
    /// Publish a message meant for a maintainer.
    Log(String),
}

/// What the sending task is asked to do.
pub enum SignalView {
    Discover,
    Publish,
    Resubscribe,
    Log(Seq<char>),
}

impl View for SignalType {
    type V = SignalView;

    open spec fn view(&self) -> SignalView {
        match self {
            SignalType::Discover => SignalView::Discover,
            SignalType::Publish => SignalView::Publish,
            SignalType::Resubscribe => SignalView::Resubscribe,
            SignalType::Log(msg) => SignalView::Log(msg@),
        }
    }
}

/// The digit for a number below sixteen.
pub open spec fn hex_digit(n: int) -> char {
    if n < 10 {
        ('0' as int + n) as char
    } else {
        ('a' as int + n - 10) as char
    }
}

/// Two hexadecimal digits for each byte, in lower case, the higher one first.
pub open spec fn hex_digits(bytes: Seq<u8>) -> Seq<char> {
    Seq::new(
        2 * bytes.len(),
        |i: int|
            hex_digit(
                if i % 2 == 0 {
                    bytes[i / 2] / 16
                } else {
                    bytes[i / 2] % 16
                } as int,
            ),
    )
}

/// Calls `hex::encode`: two digits for each byte, in lower case.
#[verifier::external_body]
fn hex_encode(bytes: &[u8]) -> (text: String)
    ensures
        text@ == hex_digits(bytes@),
{
    hex::encode(bytes)
}

/// The name of the controller with a hardware address.
pub open spec fn client_id_for(mac: Seq<u8>) -> Seq<char> {
    "esp32c6_"@ + hex_digits(mac)
}

/// What the topics of the controller with a hardware address begin with.
pub open spec fn base_topic_for(mac: Seq<u8>) -> Seq<char> {
    MQTT_TOPIC@ + "/"@ + client_id_for(mac)
}

/// The identity of a controller.
#[derive(Debug)]
pub struct App {
    /// The name under which it connects.
    pub client_id: String,
    /// What all of its topics begin with.
    pub base_topic: String,
}

impl App {
    /// The topics belong to the name.
    pub open spec fn wf(&self) -> bool {
        self.base_topic@ == MQTT_TOPIC@ + "/"@ + self.client_id@
    }

    /// The controller with that hardware address.
    pub fn new(mac: &[u8; 6]) -> (app: App)
        ensures
            app.client_id@ == client_id_for(mac@),
            app.base_topic@ == base_topic_for(mac@),
            app.wf(),
    {
        let id = hex_encode(mac.as_slice());
        let mut client_id = "esp32c6_".to_owned();
        client_id.append(id.as_str());
        let mut base_topic = MQTT_TOPIC.to_owned();
        base_topic.append("/");
        base_topic.append(client_id.as_str());
        App { client_id, base_topic }
    }

    /// What asks the sending task to publish the state.
    pub fn signal_needs_publish(&self) -> (signal: SignalType)
        ensures
            signal@ == SignalView::Publish,
    {
        SignalType::Publish
    }

    /// What asks the sending task to publish a message.
    pub fn mqtt_log(&self, msg: String) -> (signal: SignalType)
        ensures
            signal@ == SignalView::Log(msg@),
    {
        SignalType::Log(msg)
    }
}

/// What the topics of a controller begin with holds no wildcard, so that its
/// subscriptions are to its own topics alone.
pub proof fn law_base_topic_is_plain(mac: Seq<u8>)
    ensures
        !base_topic_for(mac).contains('+'),
        !base_topic_for(mac).contains('#'),
{
    reveal_strlit("esp");
    reveal_strlit("/");
    reveal_strlit("esp32c6_");
    let base = base_topic_for(mac);
    let fixed = MQTT_TOPIC@ + "/"@ + "esp32c6_"@;
    assert(base =~= fixed + hex_digits(mac));
    assert forall|i: int| 0 <= i < base.len() implies base[i] != '+' && base[i] != '#' by {
        if i < fixed.len() {
            assert(base[i] == fixed[i]);
        } else {
            assert(base[i] == hex_digits(mac)[i - fixed.len()]);
        }
    }
}

/// Controllers with different hardware addresses have different names, and
/// topics that begin differently.
pub proof fn law_identities_differ(a: Seq<u8>, b: Seq<u8>)
    requires
        a.len() == b.len(),
        a != b,
    ensures
        client_id_for(a) != client_id_for(b),
        base_topic_for(a) != base_topic_for(b),
{
    let i = choose|i: int| 0 <= i < a.len() && a[i] != b[i];
    assert(exists|i: int| 0 <= i < a.len() && a[i] != b[i]) by {
        if forall|i: int| 0 <= i < a.len() ==> a[i] == b[i] {
            assert(a =~= b);
        }
    }
    let name = "esp32c6_"@;
    let fixed = MQTT_TOPIC@ + "/"@;
    assert(hex_digits(a)[2 * i] == hex_digit((a[i] / 16) as int));
    assert(hex_digits(b)[2 * i] == hex_digit((b[i] / 16) as int));
    assert(hex_digits(a)[2 * i + 1] == hex_digit((a[i] % 16) as int));
    assert(hex_digits(b)[2 * i + 1] == hex_digit((b[i] % 16) as int));
    let k = if a[i] / 16 != b[i] / 16 {
        2 * i
    } else {
        2 * i + 1
    };
    assert(hex_digits(a)[k] != hex_digits(b)[k]);
    assert(client_id_for(a)[name.len() + k] == hex_digits(a)[k]);
    assert(client_id_for(b)[name.len() + k] == hex_digits(b)[k]);
    assert(base_topic_for(a)[fixed.len() + name.len() + k] == client_id_for(a)[name.len() + k]);
    assert(base_topic_for(b)[fixed.len() + name.len() + k] == client_id_for(b)[name.len() + k]);
}

/// The name of a controller is a fixed text and then, for each byte of its
/// hardware address, two digits of sixteen, the higher one first. Its topics
/// begin with that name, one level down.
pub proof fn law_identity_spells_the_address(mac: Seq<u8>, i: int)
    ensures
        base_topic_for(mac) == "esp/"@ + client_id_for(mac),
        client_id_for(mac).len() == 8 + 2 * mac.len(),
        client_id_for(mac).take(8) == "esp32c6_"@,
        0 <= i < mac.len() ==> {
            &&& client_id_for(mac)[8 + 2 * i] == "0123456789abcdef"@[mac[i] as int / 16]
            &&& client_id_for(mac)[8 + 2 * i + 1] == "0123456789abcdef"@[mac[i] as int % 16]
        },
{
    reveal_strlit("esp");
    reveal_strlit("/");
    reveal_strlit("esp/");
    reveal_strlit("esp32c6_");
    reveal_strlit("0123456789abcdef");
    assert(MQTT_TOPIC@ + "/"@ =~= "esp/"@);
    assert(client_id_for(mac).take(8) =~= "esp32c6_"@);
    if 0 <= i < mac.len() {
        let digits = hex_digits(mac);
        assert(client_id_for(mac)[8 + 2 * i] == digits[2 * i]);
        assert(client_id_for(mac)[8 + 2 * i + 1] == digits[2 * i + 1]);
        assert(digits[2 * i] == hex_digit((mac[i] / 16) as int));
        assert(digits[2 * i + 1] == hex_digit((mac[i] % 16) as int));
        lemma_digits((mac[i] / 16) as int);
        lemma_digits((mac[i] % 16) as int);
    }
}

proof fn lemma_digits(n: int)
    requires
        0 <= n < 16,
    ensures
        hex_digit(n) == "0123456789abcdef"@[n],
{
    reveal_strlit("0123456789abcdef");
}

/// What a signal asks for is what its view says.
pub proof fn law_signals_are_kept(signal: SignalType)
    ensures
        signal is Discover <==> signal@ == SignalView::Discover,
        signal is Publish <==> signal@ == SignalView::Publish,
        signal is Resubscribe <==> signal@ == SignalView::Resubscribe,
        signal matches SignalType::Log(msg) ==> signal@ == SignalView::Log(msg@),
{
}

} // verus!
