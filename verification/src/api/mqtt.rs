use vstd::prelude::*;
use crate::text::{split, split_spec, views, lemma_split_nonempty, decimal, decimal_spec};

verus! {

broadcast use vstd::string::group_string_axioms;

/// A command received over MQTT, its numeric argument still as the payload's bytes.
#[derive(Debug, Clone, PartialEq, Eq)]
pub enum CommandRequest {
    PowerOn,
    PowerOff,
    SetTemperature(Vec<u8>),
    SetPressure(Vec<u8>),
}

/// Model of [`CommandRequest`].
pub enum CommandKind {
    PowerOn,
    PowerOff,
    SetTemperature(Seq<u8>),
    SetPressure(Seq<u8>),
}

impl View for CommandRequest {
    type V = CommandKind;

    open spec fn view(&self) -> CommandKind {
        match self {
            CommandRequest::PowerOn => CommandKind::PowerOn,
            CommandRequest::PowerOff => CommandKind::PowerOff,
            CommandRequest::SetTemperature(p) => CommandKind::SetTemperature(p@),
            CommandRequest::SetPressure(p) => CommandKind::SetPressure(p@),
        }
    }
}

/// A byte with an ASCII capital letter taken to its small letter.
pub open spec fn lowered(b: u8) -> u8 {
    if 65 <= b <= 90 {
        (b + 32) as u8
    } else {
        b
    }
}

/// Whether the payload, letters taken to small ones, is exactly `word`.
pub open spec fn payload_is(payload: Seq<u8>, word: Seq<u8>) -> bool {
    payload.len() == word.len() && forall|i: int|
        0 <= i < word.len() ==> lowered(#[trigger] payload[i]) == word[i]
}

/// The command a message asks for: the topic's last `/`-separated part names it; `power`
/// takes `on` or `off` in any case, `temperature` and `pressure` take their payload.
pub open spec fn command_for(topic: Option<Seq<char>>, payload: Seq<u8>) -> Result<
    CommandKind,
    Seq<char>,
> {
    match topic {
        None => Err("No topic :("@),
        Some(t) => {
            let parts = split_spec(t, '/');
            let command = parts[parts.len() - 1];
            if command == "power"@ {
                if payload_is(payload, seq![111u8, 110u8]) {
                    Ok(CommandKind::PowerOn)
                } else if payload_is(payload, seq![111u8, 102u8, 102u8]) {
                    Ok(CommandKind::PowerOff)
                } else {
                    Err("Invalid power command"@)
                }
            } else if command == "temperature"@ {
                Ok(CommandKind::SetTemperature(payload))
            } else if command == "pressure"@ {
                Ok(CommandKind::SetPressure(payload))
            } else {
                Err("Invalid command"@)
            }
        },
    }
}

/// Model of the result of reading a command.
pub open spec fn result_view(r: Result<CommandRequest, &str>) -> Result<CommandKind, Seq<char>> {
    match r {
        Ok(c) => Ok(c@),
        Err(e) => Err(e@),
    }
}

fn lower(b: u8) -> (r: u8)
    ensures
        r == lowered(b),
{
    if 65 <= b && b <= 90 {
        b + 32
    } else {
        b
    }
}

/// Whether the payload, letters taken to small ones, is exactly `word`.
fn matches_word(payload: &[u8], word: &[u8]) -> (r: bool)
    ensures
        r == payload_is(payload@, word@),
{
    if payload.len() != word.len() {
        return false;
    }
    let mut i: usize = 0;
    while i < word.len()
        invariant
            payload@.len() == word@.len(),
            i <= word@.len(),
            forall|j: int| 0 <= j < i ==> lowered(#[trigger] payload@[j]) == word@[j],
        decreases word@.len() - i,
    {
        if lower(payload[i]) != word[i] {
            return false;
        }
        i = i + 1;
    }
    true
}

impl CommandRequest {
    /// Reads the command that a received message asks for, or says why it is none.
    pub fn from_message(topic: Option<&str>, data: &[u8]) -> (r: Result<CommandRequest, &'static str>)
        ensures
            result_view(r) == command_for(
                match topic {
                    None => None,
                    Some(t) => Some(t@),
                },
                data@,
            ),
    {
        let topic = match topic {
            None => return Err("No topic :("),
            Some(t) => t,
        };
        let parts = split(topic, '/');
        proof {
            lemma_split_nonempty(topic@, '/');
            assert(views(parts@)[parts@.len() - 1] == parts@[parts@.len() - 1]@);
        }
        let command = &parts[parts.len() - 1];
        if *command == "power".to_string() {
            let on: [u8; 2] = [111u8, 110u8];
            let off: [u8; 3] = [111u8, 102u8, 102u8];
            proof {
                assert(on@ =~= seq![111u8, 110u8]);
                assert(off@ =~= seq![111u8, 102u8, 102u8]);
            }
            if matches_word(data, &on) {
                Ok(CommandRequest::PowerOn)
            } else if matches_word(data, &off) {
                Ok(CommandRequest::PowerOff)
            } else {
                Err("Invalid power command")
            }
        } else if *command == "temperature".to_string() {
            Ok(CommandRequest::SetTemperature(vstd::slice::slice_to_vec(data)))
        } else if *command == "pressure".to_string() {
            Ok(CommandRequest::SetPressure(vstd::slice::slice_to_vec(data)))
        } else {
            Err("Invalid command")
        }
    }
}

/// The URL of the MQTT broker.
pub fn mqtt_url(broker: &str, port: u16) -> (url: String)
    ensures
        url@ == "mqtt://"@ + broker@ + ":"@ + decimal_spec(port as nat),
{
    "mqtt://".to_string().concat(broker).concat(":").concat(decimal(port as u64).as_str())
}

/// A topic under the client's own prefix: `client_id/suffix`.
pub fn client_topic(client_id: &str, suffix: &str) -> (topic: String)
    ensures
        topic@ == client_id@ + "/"@ + suffix@,
{
    client_id.to_string().concat("/").concat(suffix)
}

/// The command a message asks for is named by the last part of its topic. `power` switches
/// on for the payload "on" and off for "off", in any mix of capital and small letters, and
/// for nothing else; `temperature` and `pressure` pass their payload on unchanged; a message
/// without a topic, or with an unknown command, is refused.
pub proof fn lemma_command_meaning(topic: Seq<char>, payload: Seq<u8>)
    ensures
        command_for(None, payload) is Err,
        (command_for(Some(topic), payload) == Ok::<CommandKind, Seq<char>>(CommandKind::PowerOn))
            <==> (split_spec(topic, '/').last() == "power"@ && payload.len() == 2 && (payload[0]
            == 111 || payload[0] == 79) && (payload[1] == 110 || payload[1] == 78)),
        (command_for(Some(topic), payload) == Ok::<CommandKind, Seq<char>>(CommandKind::PowerOff))
            <==> (split_spec(topic, '/').last() == "power"@ && payload.len() == 3 && (payload[0]
            == 111 || payload[0] == 79) && (payload[1] == 102 || payload[1] == 70) && (payload[2]
            == 102 || payload[2] == 70)),
        split_spec(topic, '/').last() == "temperature"@ ==> command_for(Some(topic), payload)
            == Ok::<CommandKind, Seq<char>>(CommandKind::SetTemperature(payload)),
        split_spec(topic, '/').last() == "pressure"@ ==> command_for(Some(topic), payload)
            == Ok::<CommandKind, Seq<char>>(CommandKind::SetPressure(payload)),
        command_for(Some(topic), payload) is Ok ==> (split_spec(topic, '/').last() == "power"@
            || split_spec(topic, '/').last() == "temperature"@ || split_spec(topic, '/').last()
            == "pressure"@),
{
    let on = seq![111u8, 110u8];
    let off = seq![111u8, 102u8, 102u8];
    reveal_strlit("power");
    reveal_strlit("temperature");
    reveal_strlit("pressure");
    assert("power"@.len() != "temperature"@.len());
    assert("power"@.len() != "pressure"@.len());
    assert("temperature"@.len() != "pressure"@.len());
    if payload.len() == 2 {
        assert(payload_is(payload, on) <==> (lowered(payload[0]) == on[0] && lowered(payload[1])
            == on[1]));
    }
    if payload.len() == 3 {
        assert(payload_is(payload, off) <==> (lowered(payload[0]) == off[0] && lowered(payload[1])
            == off[1] && lowered(payload[2]) == off[2]));
    }
    if payload_is(payload, on) {
        assert(payload.len() == 2);
    }
    if payload_is(payload, off) {
        assert(payload.len() == 3);
    }
}

} // verus!
