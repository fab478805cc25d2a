//! What is sent to the service: the request that opens its web socket, and the two
//! events that go out on it.

use crate::base64_text::{base64_text, law_base64_text_is_plain};
use crate::json::{
    array_text, array_value, ascending, comma_joined, decimal, integer_value, json_text,
    law_plain_text_is_quoted_verbatim, lemma_member, member_text, null_value, object_text,
    object_value, precedes, precedes_at, quoted, string_value, tenths_value, value_to_text,
};
use crate::messages::labelled;
use vstd::prelude::*;

verus! {

/// The request that opens the service's web socket.
#[derive(Debug, PartialEq, Eq)]
pub struct OpenAiRequest {
    pub url: String,
    /// Names and values of the headers.
    pub headers: Vec<(String, String)>,
}

/// Makes the request that opens the service's web socket.
pub fn openai_request(api_key: &str) -> (request: OpenAiRequest)
    ensures
        request.url@ == "wss://api.openai.com/v1/realtime?model=gpt-4o-realtime-preview-2024-10-01"@,
        request.headers@.len() == 2,
        request.headers@[0].0@ == "Authorization"@,
        request.headers@[0].1@ == "Bearer "@ + api_key@,
        request.headers@[1].0@ == "OpenAI-Beta"@,
        request.headers@[1].1@ == "realtime=v1"@,
{
    let mut headers: Vec<(String, String)> = Vec::new();
    headers.push(("Authorization".to_string(), labelled("Bearer ", api_key)));
    headers.push(("OpenAI-Beta".to_string(), "realtime=v1".to_string()));
    OpenAiRequest {
        url: "wss://api.openai.com/v1/realtime?model=gpt-4o-realtime-preview-2024-10-01".to_string(),
        headers,
    }
}

/// How the service is to find out when the user has finished speaking.
pub open spec fn turn_detection_text() -> Seq<char> {
    object_text(
        seq![
            ("prefix_padding_ms"@, decimal(300)),
            ("silence_duration_ms"@, decimal(500)),
            ("threshold"@, "0.5"@),
            ("type"@, quoted("server_vad"@)),
        ],
    )
}

/// The settings of a session with these instructions.
pub open spec fn session_text(instructions: Seq<char>) -> Seq<char> {
    object_text(
        seq![
            ("input_audio_format"@, quoted("pcm16"@)),
            ("input_audio_transcription"@, "null"@),
            ("instructions"@, quoted(instructions)),
            ("max_response_output_tokens"@, quoted("inf"@)),
            ("modalities"@, array_text(seq![quoted("text"@), quoted("audio"@)])),
            ("output_audio_format"@, quoted("pcm16"@)),
            ("temperature"@, "0.8"@),
            ("tool_choice"@, quoted("auto"@)),
            ("tools"@, array_text(seq![])),
            ("turn_detection"@, turn_detection_text()),
            ("voice"@, quoted("alloy"@)),
        ],
    )
}

/// The event that sets up a session with these instructions.
pub open spec fn session_update_text(instructions: Seq<char>) -> Seq<char> {
    object_text(
        seq![("session"@, session_text(instructions)), ("type"@, quoted("session.update"@))],
    )
}

/// The event that appends audio to what the user has said.
pub open spec fn append_text(audio: Seq<char>) -> Seq<char> {
    object_text(
        seq![("audio"@, quoted(audio)), ("type"@, quoted("input_audio_buffer.append"@))],
    )
}

proof fn lemma_precedes(a: Seq<char>, b: Seq<char>, k: int)
    requires
        0 <= k <= a.len(),
        k < b.len(),
        forall|i: int| 0 <= i < k ==> a[i] == b[i],
        k == a.len() || a[k] < b[k],
    ensures
        precedes(a, b),
{
    assert(a.take(k) =~= b.take(k));
    assert(precedes_at(a, b, k));
}

/// Makes one member of an object.
fn member(key: &str, value: serde_json::Value) -> (m: (String, serde_json::Value))
    ensures
        m.0@ == key@,
        m.1 == value,
{
    (key.to_string(), value)
}

/// Makes the settings for turn detection.
fn turn_detection_value() -> (value: serde_json::Value)
    ensures
        json_text(value) == turn_detection_text(),
{
    proof {
        reveal_strlit("prefix_padding_ms");
        reveal_strlit("silence_duration_ms");
        reveal_strlit("threshold");
        reveal_strlit("type");
        reveal_strlit("0.5");
        lemma_precedes("prefix_padding_ms"@, "silence_duration_ms"@, 0);
        lemma_precedes("silence_duration_ms"@, "threshold"@, 0);
        lemma_precedes("threshold"@, "type"@, 1);
    }
    let mut members: Vec<(String, serde_json::Value)> = Vec::new();
    members.push(member("prefix_padding_ms", integer_value(300)));
    members.push(member("silence_duration_ms", integer_value(500)));
    members.push(member("threshold", tenths_value("0.5")));
    members.push(member("type", string_value("server_vad")));
    assert(members@.map_values(|m: (String, serde_json::Value)| m.0@) =~= seq![
        "prefix_padding_ms"@,
        "silence_duration_ms"@,
        "threshold"@,
        "type"@,
    ]);
    assert(members@.map_values(|m: (String, serde_json::Value)| (m.0@, json_text(m.1))) =~= seq![
        ("prefix_padding_ms"@, decimal(300)),
        ("silence_duration_ms"@, decimal(500)),
        ("threshold"@, "0.5"@),
        ("type"@, quoted("server_vad"@)),
    ]);
    object_value(members)
}

/// The keys of the settings of a session stand in dictionary order.
proof fn lemma_session_keys()
    ensures
        ascending(
            seq![
                "input_audio_format"@,
                "input_audio_transcription"@,
                "instructions"@,
                "max_response_output_tokens"@,
                "modalities"@,
                "output_audio_format"@,
                "temperature"@,
                "tool_choice"@,
                "tools"@,
                "turn_detection"@,
                "voice"@,
            ],
        ),
{
    reveal_strlit("input_audio_format");
    reveal_strlit("input_audio_transcription");
    reveal_strlit("instructions");
    reveal_strlit("max_response_output_tokens");
    reveal_strlit("modalities");
    reveal_strlit("output_audio_format");
    reveal_strlit("temperature");
    reveal_strlit("tool_choice");
    reveal_strlit("tools");
    reveal_strlit("turn_detection");
    reveal_strlit("voice");
    lemma_precedes("input_audio_format"@, "input_audio_transcription"@, 12);
    lemma_precedes("input_audio_transcription"@, "instructions"@, 2);
    lemma_precedes("instructions"@, "max_response_output_tokens"@, 0);
    lemma_precedes("max_response_output_tokens"@, "modalities"@, 1);
    lemma_precedes("modalities"@, "output_audio_format"@, 0);
    lemma_precedes("output_audio_format"@, "temperature"@, 0);
    lemma_precedes("temperature"@, "tool_choice"@, 1);
    lemma_precedes("tool_choice"@, "tools"@, 4);
    lemma_precedes("tools"@, "turn_detection"@, 1);
    lemma_precedes("turn_detection"@, "voice"@, 0);
}

/// Makes the settings of a session with these instructions.
fn session_value(instructions: &str) -> (value: serde_json::Value)
    ensures
        json_text(value) == session_text(instructions@),
{
    proof {
        lemma_session_keys();
        reveal_strlit("0.8");
    }
    let mut modalities: Vec<serde_json::Value> = Vec::new();
    modalities.push(string_value("text"));
    modalities.push(string_value("audio"));
    assert(modalities@.map_values(|v: serde_json::Value| json_text(v)) =~= seq![
        quoted("text"@),
        quoted("audio"@),
    ]);
    let tools: Vec<serde_json::Value> = Vec::new();
    assert(tools@.map_values(|v: serde_json::Value| json_text(v)) =~= seq![]);
    let mut members: Vec<(String, serde_json::Value)> = Vec::new();
    members.push(member("input_audio_format", string_value("pcm16")));
    members.push(member("input_audio_transcription", null_value()));
    members.push(member("instructions", string_value(instructions)));
    members.push(member("max_response_output_tokens", string_value("inf")));
    members.push(member("modalities", array_value(modalities)));
    members.push(member("output_audio_format", string_value("pcm16")));
    members.push(member("temperature", tenths_value("0.8")));
    members.push(member("tool_choice", string_value("auto")));
    members.push(member("tools", array_value(tools)));
    members.push(member("turn_detection", turn_detection_value()));
    members.push(member("voice", string_value("alloy")));
    assert(members@.map_values(|m: (String, serde_json::Value)| m.0@) =~= seq![
        "input_audio_format"@,
        "input_audio_transcription"@,
        "instructions"@,
        "max_response_output_tokens"@,
        "modalities"@,
        "output_audio_format"@,
        "temperature"@,
        "tool_choice"@,
        "tools"@,
        "turn_detection"@,
        "voice"@,
    ]);
    assert(members@.map_values(|m: (String, serde_json::Value)| (m.0@, json_text(m.1))) =~= seq![
        ("input_audio_format"@, quoted("pcm16"@)),
        ("input_audio_transcription"@, "null"@),
        ("instructions"@, quoted(instructions@)),
        ("max_response_output_tokens"@, quoted("inf"@)),
        ("modalities"@, array_text(seq![quoted("text"@), quoted("audio"@)])),
        ("output_audio_format"@, quoted("pcm16"@)),
        ("temperature"@, "0.8"@),
        ("tool_choice"@, quoted("auto"@)),
        ("tools"@, array_text(seq![])),
        ("turn_detection"@, turn_detection_text()),
        ("voice"@, quoted("alloy"@)),
    ]);
    object_value(members)
}

/// Writes the event that sets up a session with these instructions.
pub fn session_update_event(instructions: &str) -> (text: String)
    ensures
        text@ == session_update_text(instructions@),
{
    proof {
        reveal_strlit("session");
        reveal_strlit("type");
        lemma_precedes("session"@, "type"@, 0);
    }
    let mut members: Vec<(String, serde_json::Value)> = Vec::new();
    members.push(member("session", session_value(instructions)));
    members.push(member("type", string_value("session.update")));
    assert(members@.map_values(|m: (String, serde_json::Value)| m.0@) =~= seq![
        "session"@,
        "type"@,
    ]);
    assert(members@.map_values(|m: (String, serde_json::Value)| (m.0@, json_text(m.1))) =~= seq![
        ("session"@, session_text(instructions@)),
        ("type"@, quoted("session.update"@)),
    ]);
    value_to_text(&object_value(members))
}

/// Writes the event that appends audio to what the user has said.
pub fn append_event(audio: &str) -> (text: String)
    ensures
        text@ == append_text(audio@),
{
    proof {
        reveal_strlit("audio");
        reveal_strlit("type");
        lemma_precedes("audio"@, "type"@, 0);
    }
    let mut members: Vec<(String, serde_json::Value)> = Vec::new();
    members.push(member("audio", string_value(audio)));
    members.push(member("type", string_value("input_audio_buffer.append")));
    assert(members@.map_values(|m: (String, serde_json::Value)| m.0@) =~= seq![
        "audio"@,
        "type"@,
    ]);
    assert(members@.map_values(|m: (String, serde_json::Value)| (m.0@, json_text(m.1))) =~= seq![
        ("audio"@, quoted(audio@)),
        ("type"@, quoted("input_audio_buffer.append"@)),
    ]);
    value_to_text(&object_value(members))
}

/// Passes a piece of what the user says on to the service: the event to send, or
/// `None` where no more pieces come.
pub fn openai_bufsender(b64_buf: Option<String>) -> (event: Option<String>)
    ensures
        match b64_buf {
            None => event is None,
            Some(audio) => {
                &&& event matches Some(text)
                &&& text@ == append_text(audio@)
            },
        },
{
    match b64_buf {
        None => None,
        Some(audio) => Some(append_event(audio.as_str())),
    }
}

/// The settings that every session gets, beside its instructions, literally.
pub proof fn law_turn_detection_settings()
    ensures
        turn_detection_text() == seq!['{'] + ("\"prefix_padding_ms\":300"@
            + seq![','] + "\"silence_duration_ms\":500"@
            + seq![','] + "\"threshold\":0.5"@
            + seq![','] + "\"type\":\"server_vad\""@) + seq!['}'],
{
    reveal_strlit("prefix_padding_ms");
    reveal_strlit("\"prefix_padding_ms\":");
    reveal_strlit("silence_duration_ms");
    reveal_strlit("\"silence_duration_ms\":");
    reveal_strlit("threshold");
    reveal_strlit("\"threshold\":");
    reveal_strlit("type");
    reveal_strlit("\"type\":");
    reveal_strlit("\"prefix_padding_ms\":300");
    reveal_strlit("\"silence_duration_ms\":500");
    reveal_strlit("\"threshold\":0.5");
    reveal_strlit("\"type\":\"server_vad\"");
    reveal_strlit("0.5");
    reveal_strlit("server_vad");
    law_plain_text_is_quoted_verbatim("server_vad"@);
    lemma_three_digits(300);
    lemma_three_digits(500);
    let members = seq![
        ("prefix_padding_ms"@, decimal(300)),
        ("silence_duration_ms"@, decimal(500)),
        ("threshold"@, "0.5"@),
        ("type"@, quoted("server_vad"@)),
    ];
    lemma_member("prefix_padding_ms"@, "\"prefix_padding_ms\":"@, members[0].1);
    assert(member_text(members[0]) =~= "\"prefix_padding_ms\":300"@);
    lemma_member("silence_duration_ms"@, "\"silence_duration_ms\":"@, members[1].1);
    assert(member_text(members[1]) =~= "\"silence_duration_ms\":500"@);
    lemma_member("threshold"@, "\"threshold\":"@, members[2].1);
    assert(member_text(members[2]) =~= "\"threshold\":0.5"@);
    lemma_member("type"@, "\"type\":"@, members[3].1);
    assert(member_text(members[3]) =~= "\"type\":\"server_vad\""@);
    let parts = members.map_values(|m: (Seq<char>, Seq<char>)| member_text(m));
    reveal_with_fuel(comma_joined, 4);
    assert(parts.drop_last().drop_last().drop_last() =~= seq![parts[0]]);
}

proof fn lemma_three_digits(n: nat)
    requires
        100 <= n < 1000,
    ensures
        decimal(n) =~= seq![
            (48 + n / 100) as char,
            (48 + n / 10 % 10) as char,
            (48 + n % 10) as char,
        ],
{
    reveal_with_fuel(decimal, 3);
}

/// A session is set up with its instructions, unabridged, and otherwise always with the
/// same settings, literally.
pub proof fn law_session_carries_the_instructions(instructions: Seq<char>)
    ensures
        session_update_text(instructions) == seq!['{'] + ("\"session\":"@ + (seq!['{'] + ("\"input_audio_format\":\"pcm16\""@
            + seq![','] + "\"input_audio_transcription\":null"@
            + seq![','] + ("\"instructions\":"@ + quoted(instructions))
            + seq![','] + "\"max_response_output_tokens\":\"inf\""@
            + seq![','] + "\"modalities\":[\"text\",\"audio\"]"@
            + seq![','] + "\"output_audio_format\":\"pcm16\""@
            + seq![','] + "\"temperature\":0.8"@
            + seq![','] + "\"tool_choice\":\"auto\""@
            + seq![','] + "\"tools\":[]"@
            + seq![','] + ("\"turn_detection\":"@ + turn_detection_text())
            + seq![','] + "\"voice\":\"alloy\""@) + seq!['}'])
            + seq![','] + "\"type\":\"session.update\""@) + seq!['}'],
{
    lemma_session_text(instructions);
    reveal_strlit("session");
    reveal_strlit("type");
    reveal_strlit("session.update");
    reveal_strlit("\"session\":");
    reveal_strlit("\"type\":");
    reveal_strlit("\"type\":\"session.update\"");
    law_plain_text_is_quoted_verbatim("session.update"@);
    let members = seq![
        ("session"@, session_text(instructions)),
        ("type"@, quoted("session.update"@)),
    ];
    lemma_member("session"@, "\"session\":"@, members[0].1);
    lemma_member("type"@, "\"type\":"@, members[1].1);
    assert(member_text(members[1]) =~= "\"type\":\"session.update\""@);
    let parts = members.map_values(|m: (Seq<char>, Seq<char>)| member_text(m));
    reveal_with_fuel(comma_joined, 2);
    assert(parts.drop_last() =~= seq![parts[0]]);
}

/// The members of the settings, literally.
proof fn lemma_session_members(instructions: Seq<char>)
    ensures
        member_text(("input_audio_format"@, quoted("pcm16"@))) == "\"input_audio_format\":\"pcm16\""@,
        member_text(("input_audio_transcription"@, "null"@)) == "\"input_audio_transcription\":null"@,
        member_text(("instructions"@, quoted(instructions))) == ("\"instructions\":"@ + quoted(instructions)),
        member_text(("max_response_output_tokens"@, quoted("inf"@))) == "\"max_response_output_tokens\":\"inf\""@,
        member_text(("modalities"@, array_text(seq![quoted("text"@), quoted("audio"@)]))) == "\"modalities\":[\"text\",\"audio\"]"@,
        member_text(("output_audio_format"@, quoted("pcm16"@))) == "\"output_audio_format\":\"pcm16\""@,
        member_text(("temperature"@, "0.8"@)) == "\"temperature\":0.8"@,
        member_text(("tool_choice"@, quoted("auto"@))) == "\"tool_choice\":\"auto\""@,
        member_text(("tools"@, array_text(seq![]))) == "\"tools\":[]"@,
        member_text(("turn_detection"@, turn_detection_text())) == ("\"turn_detection\":"@ + turn_detection_text()),
        member_text(("voice"@, quoted("alloy"@))) == "\"voice\":\"alloy\""@,
{
    reveal_strlit("pcm16");
    reveal_strlit("null");
    reveal_strlit("inf");
    reveal_strlit("text");
    reveal_strlit("audio");
    reveal_strlit("0.8");
    reveal_strlit("auto");
    reveal_strlit("alloy");
    law_plain_text_is_quoted_verbatim("pcm16"@);
    law_plain_text_is_quoted_verbatim("inf"@);
    law_plain_text_is_quoted_verbatim("text"@);
    law_plain_text_is_quoted_verbatim("audio"@);
    law_plain_text_is_quoted_verbatim("auto"@);
    law_plain_text_is_quoted_verbatim("alloy"@);
    let both = seq![quoted("text"@), quoted("audio"@)];
    reveal_with_fuel(comma_joined, 2);
    assert(both.drop_last() =~= seq![quoted("text"@)]);
    reveal_strlit("[\"text\",\"audio\"]");
    reveal_strlit("[]");
    assert(array_text(both) =~= "[\"text\",\"audio\"]"@);
    assert(array_text(seq![]) =~= "[]"@);
    reveal_strlit("input_audio_format");
    reveal_strlit("\"input_audio_format\":");
    lemma_member("input_audio_format"@, "\"input_audio_format\":"@, quoted("pcm16"@));
    reveal_strlit("\"input_audio_format\":\"pcm16\"");
    assert(member_text(("input_audio_format"@, quoted("pcm16"@))) =~= "\"input_audio_format\":\"pcm16\""@);
    reveal_strlit("input_audio_transcription");
    reveal_strlit("\"input_audio_transcription\":");
    lemma_member("input_audio_transcription"@, "\"input_audio_transcription\":"@, "null"@);
    reveal_strlit("\"input_audio_transcription\":null");
    assert(member_text(("input_audio_transcription"@, "null"@)) =~= "\"input_audio_transcription\":null"@);
    reveal_strlit("instructions");
    reveal_strlit("\"instructions\":");
    lemma_member("instructions"@, "\"instructions\":"@, quoted(instructions));
    reveal_strlit("max_response_output_tokens");
    reveal_strlit("\"max_response_output_tokens\":");
    lemma_member("max_response_output_tokens"@, "\"max_response_output_tokens\":"@, quoted("inf"@));
    reveal_strlit("\"max_response_output_tokens\":\"inf\"");
    assert(member_text(("max_response_output_tokens"@, quoted("inf"@))) =~= "\"max_response_output_tokens\":\"inf\""@);
    reveal_strlit("modalities");
    reveal_strlit("\"modalities\":");
    lemma_member("modalities"@, "\"modalities\":"@, array_text(seq![quoted("text"@), quoted("audio"@)]));
    reveal_strlit("\"modalities\":[\"text\",\"audio\"]");
    assert(member_text(("modalities"@, array_text(seq![quoted("text"@), quoted("audio"@)]))) =~= "\"modalities\":[\"text\",\"audio\"]"@);
    reveal_strlit("output_audio_format");
    reveal_strlit("\"output_audio_format\":");
    lemma_member("output_audio_format"@, "\"output_audio_format\":"@, quoted("pcm16"@));
    reveal_strlit("\"output_audio_format\":\"pcm16\"");
    assert(member_text(("output_audio_format"@, quoted("pcm16"@))) =~= "\"output_audio_format\":\"pcm16\""@);
    reveal_strlit("temperature");
    reveal_strlit("\"temperature\":");
    lemma_member("temperature"@, "\"temperature\":"@, "0.8"@);
    reveal_strlit("\"temperature\":0.8");
    assert(member_text(("temperature"@, "0.8"@)) =~= "\"temperature\":0.8"@);
    reveal_strlit("tool_choice");
    reveal_strlit("\"tool_choice\":");
    lemma_member("tool_choice"@, "\"tool_choice\":"@, quoted("auto"@));
    reveal_strlit("\"tool_choice\":\"auto\"");
    assert(member_text(("tool_choice"@, quoted("auto"@))) =~= "\"tool_choice\":\"auto\""@);
    reveal_strlit("tools");
    reveal_strlit("\"tools\":");
    lemma_member("tools"@, "\"tools\":"@, array_text(seq![]));
    reveal_strlit("\"tools\":[]");
    assert(member_text(("tools"@, array_text(seq![]))) =~= "\"tools\":[]"@);
    reveal_strlit("turn_detection");
    reveal_strlit("\"turn_detection\":");
    lemma_member("turn_detection"@, "\"turn_detection\":"@, turn_detection_text());
    reveal_strlit("voice");
    reveal_strlit("\"voice\":");
    lemma_member("voice"@, "\"voice\":"@, quoted("alloy"@));
    reveal_strlit("\"voice\":\"alloy\"");
    assert(member_text(("voice"@, quoted("alloy"@))) =~= "\"voice\":\"alloy\""@);
}

proof fn lemma_session_text(instructions: Seq<char>)
    ensures
        session_text(instructions) == seq!['{'] + ("\"input_audio_format\":\"pcm16\""@
            + seq![','] + "\"input_audio_transcription\":null"@
            + seq![','] + ("\"instructions\":"@ + quoted(instructions))
            + seq![','] + "\"max_response_output_tokens\":\"inf\""@
            + seq![','] + "\"modalities\":[\"text\",\"audio\"]"@
            + seq![','] + "\"output_audio_format\":\"pcm16\""@
            + seq![','] + "\"temperature\":0.8"@
            + seq![','] + "\"tool_choice\":\"auto\""@
            + seq![','] + "\"tools\":[]"@
            + seq![','] + ("\"turn_detection\":"@ + turn_detection_text())
            + seq![','] + "\"voice\":\"alloy\""@) + seq!['}'],
{
    lemma_session_members(instructions);
    let members = seq![
        ("input_audio_format"@, quoted("pcm16"@)),
        ("input_audio_transcription"@, "null"@),
        ("instructions"@, quoted(instructions)),
        ("max_response_output_tokens"@, quoted("inf"@)),
        ("modalities"@, array_text(seq![quoted("text"@), quoted("audio"@)])),
        ("output_audio_format"@, quoted("pcm16"@)),
        ("temperature"@, "0.8"@),
        ("tool_choice"@, quoted("auto"@)),
        ("tools"@, array_text(seq![])),
        ("turn_detection"@, turn_detection_text()),
        ("voice"@, quoted("alloy"@)),
    ];
    let parts = members.map_values(|m: (Seq<char>, Seq<char>)| member_text(m));
    let texts = seq![
        member_text(("input_audio_format"@, quoted("pcm16"@))),
        member_text(("input_audio_transcription"@, "null"@)),
        member_text(("instructions"@, quoted(instructions))),
        member_text(("max_response_output_tokens"@, quoted("inf"@))),
        member_text(("modalities"@, array_text(seq![quoted("text"@), quoted("audio"@)]))),
        member_text(("output_audio_format"@, quoted("pcm16"@))),
        member_text(("temperature"@, "0.8"@)),
        member_text(("tool_choice"@, quoted("auto"@))),
        member_text(("tools"@, array_text(seq![]))),
        member_text(("turn_detection"@, turn_detection_text())),
        member_text(("voice"@, quoted("alloy"@))),
    ];
    assert(parts =~= texts);
    lemma_eleven_joined(texts);
}

proof fn lemma_eleven_joined(t: Seq<Seq<char>>)
    requires
        t.len() == 11,
    ensures
        comma_joined(t) == t[0]
            + seq![','] + t[1]
            + seq![','] + t[2]
            + seq![','] + t[3]
            + seq![','] + t[4]
            + seq![','] + t[5]
            + seq![','] + t[6]
            + seq![','] + t[7]
            + seq![','] + t[8]
            + seq![','] + t[9]
            + seq![','] + t[10],
{
    lemma_one_more_joined(t, 2);
    lemma_one_more_joined(t, 3);
    lemma_one_more_joined(t, 4);
    lemma_one_more_joined(t, 5);
    lemma_one_more_joined(t, 6);
    lemma_one_more_joined(t, 7);
    lemma_one_more_joined(t, 8);
    lemma_one_more_joined(t, 9);
    lemma_one_more_joined(t, 10);
    lemma_one_more_joined(t, 11);
    assert(t.take(1) =~= seq![t[0]]);
    assert(t.take(11) =~= t);
}

proof fn lemma_one_more_joined(t: Seq<Seq<char>>, n: int)
    requires
        2 <= n <= t.len(),
    ensures
        comma_joined(t.take(n)) == comma_joined(t.take(n - 1)) + seq![','] + t[n - 1],
{
    assert(t.take(n).drop_last() =~= t.take(n - 1));
}

/// The event that appends audio carries it unabridged.
pub proof fn law_append_carries_the_audio(audio: Seq<char>)
    ensures
        append_text(audio) == seq!['{'] + ("\"audio\":"@ + quoted(audio) + seq![',']
            + "\"type\":\"input_audio_buffer.append\""@) + seq!['}'],
{
    reveal_strlit("audio");
    reveal_strlit("type");
    reveal_strlit("input_audio_buffer.append");
    reveal_strlit("\"audio\":");
    reveal_strlit("\"type\":");
    reveal_strlit("\"type\":\"input_audio_buffer.append\"");
    law_plain_text_is_quoted_verbatim("input_audio_buffer.append"@);
    let members = seq![("audio"@, quoted(audio)), ("type"@, quoted("input_audio_buffer.append"@))];
    lemma_member("audio"@, "\"audio\":"@, members[0].1);
    lemma_member("type"@, "\"type\":"@, members[1].1);
    assert(member_text(members[1]) =~= "\"type\":\"input_audio_buffer.append\""@);
    let parts = members.map_values(|m: (Seq<char>, Seq<char>)| member_text(m));
    reveal_with_fuel(comma_joined, 2);
    assert(parts.drop_last() =~= seq![parts[0]]);
}

/// Audio that is written as base64 stands in its event as it is.
pub proof fn law_audio_is_sent_verbatim(bytes: Seq<u8>)
    ensures
        append_text(base64_text(bytes)) == "{\"audio\":\""@ + base64_text(bytes)
            + "\",\"type\":\"input_audio_buffer.append\"}"@,
{
    let audio = base64_text(bytes);
    law_base64_text_is_plain(bytes);
    law_plain_text_is_quoted_verbatim(audio);
    reveal_strlit("audio");
    reveal_strlit("type");
    reveal_strlit("input_audio_buffer.append");
    reveal_strlit("{\"audio\":\"");
    reveal_strlit("\",\"type\":\"input_audio_buffer.append\"}");
    law_plain_text_is_quoted_verbatim("audio"@);
    law_plain_text_is_quoted_verbatim("type"@);
    law_plain_text_is_quoted_verbatim("input_audio_buffer.append"@);
    let members = seq![("audio"@, quoted(audio)), ("type"@, quoted("input_audio_buffer.append"@))];
    let parts = members.map_values(
        |m: (Seq<char>, Seq<char>)| member_text(m),
    );
    assert(parts.drop_last() =~= seq![parts[0]]);
    reveal_with_fuel(comma_joined, 3);
    assert(append_text(audio) =~= "{\"audio\":\""@ + audio
        + "\",\"type\":\"input_audio_buffer.append\"}"@);
}

} // verus!
