use base64::prelude::BASE64_STANDARD;
use base64::Engine;
use openai_realtime_demo::context::ClientContext;
use openai_realtime_demo::events::{
    append_event, openai_bufsender, openai_request, session_update_event,
};
use openai_realtime_demo::frames::DeltaError;
use openai_realtime_demo::messages::{labelled, text_is, MyMsg, OpenApiResp};
use openai_realtime_demo::session::{openai_handle, OpenAiAction, OpenAiEvent, OpenAiSession};

fn resp(typ: &str, delta: Option<&str>) -> OpenAiEvent {
    OpenAiEvent::Response(OpenApiResp {
        typ: typ.to_string(),
        delta: delta.map(|d| d.to_string()),
    })
}

const OPEN: ClientContext = ClientContext {
    rtc_peer: true,
    local_track: true,
    have_remote_track: true,
    openai_connected: false,
    openai_tx: true,
};

#[test]
fn the_request_carries_the_key() {
    let request = openai_request("sk-test");
    assert_eq!(
        request.url,
        "wss://api.openai.com/v1/realtime?model=gpt-4o-realtime-preview-2024-10-01"
    );
    assert_eq!(
        request.headers,
        vec![
            ("Authorization".to_string(), "Bearer sk-test".to_string()),
            ("OpenAI-Beta".to_string(), "realtime=v1".to_string()),
        ]
    );
}

#[test]
fn the_session_is_set_up() {
    let expected = concat_all(&[
        "{\"session\":{\"input_audio_format\":\"pcm16\",\"input_audio_transcription\":null,",
        "\"instructions\":\"Be brief.\",\"max_response_output_tokens\":\"inf\",",
        "\"modalities\":[\"text\",\"audio\"],\"output_audio_format\":\"pcm16\",",
        "\"temperature\":0.8,\"tool_choice\":\"auto\",\"tools\":[],",
        "\"turn_detection\":{\"prefix_padding_ms\":300,\"silence_duration_ms\":500,",
        "\"threshold\":0.5,\"type\":\"server_vad\"},\"voice\":\"alloy\"},",
        "\"type\":\"session.update\"}",
    ]);
    assert_eq!(session_update_event("Be brief."), expected);
}

fn concat_all(parts: &[&str]) -> String {
    parts.concat()
}

#[test]
fn the_session_event_reads_as_the_settings() {
    let text = session_update_event("a\"b\\c\nd\u{1}\u{1f}\u{7f}\u{e9}\u{1f600}");
    let value: serde_json::Value = serde_json::from_str(&text).unwrap();
    assert_eq!(value["type"], "session.update");
    let session = &value["session"];
    assert_eq!(session["instructions"], "a\"b\\c\nd\u{1}\u{1f}\u{7f}\u{e9}\u{1f600}");
    assert_eq!(session["temperature"], 0.8);
    assert_eq!(session["turn_detection"]["threshold"], 0.5);
    assert_eq!(session["turn_detection"]["prefix_padding_ms"], 300);
    assert_eq!(session["turn_detection"]["silence_duration_ms"], 500);
    assert!(session["input_audio_transcription"].is_null());
    assert_eq!(session["tools"], serde_json::Value::Array(vec![]));
}

#[test]
fn instructions_are_escaped() {
    let text = session_update_event("\"\\\u{8}\t\n\u{c}\r\u{0}\u{1f}/\u{7f}\u{2028}");
    assert!(text.contains(
        "\"instructions\":\"\\\"\\\\\\b\\t\\n\\f\\r\\u0000\\u001f/\u{7f}\u{2028}\","
    ));
}

#[test]
fn distinct_instructions_are_told_apart() {
    let texts = ["", "n", "\n", "\\n", "\\\\n", "u0000", "\u{0}", "\\u0000"];
    for (i, a) in texts.iter().enumerate() {
        for (j, b) in texts.iter().enumerate() {
            assert_eq!(session_update_event(a) == session_update_event(b), i == j);
        }
    }
}

#[test]
fn audio_is_appended_verbatim() {
    assert_eq!(
        append_event("AQD//w=="),
        "{\"audio\":\"AQD//w==\",\"type\":\"input_audio_buffer.append\"}"
    );
    assert_eq!(
        append_event("a\"b"),
        "{\"audio\":\"a\\\"b\",\"type\":\"input_audio_buffer.append\"}"
    );
}

#[test]
fn the_sender_stops_with_the_user() {
    assert_eq!(openai_bufsender(None), None);
    assert_eq!(openai_bufsender(Some("AAA=".to_string())), Some(append_event("AAA=")));
}

#[test]
fn a_failed_connection_is_reported() {
    let mut session = OpenAiSession::new();
    let mut context = ClientContext::new();
    let action = openai_handle(
        &mut session,
        &mut context,
        OpenAiEvent::ConnectFailed("no route".to_string()),
    );
    assert_eq!(
        action,
        OpenAiAction::Abort(MyMsg {
            op: "ERR".to_string(),
            data: "openapi connect: no route".to_string()
        })
    );
    assert_eq!(context, ClientContext::new());
    assert_eq!(session, OpenAiSession::new());
}

#[test]
fn an_open_web_socket_sets_up_the_session() {
    let mut session = OpenAiSession::new();
    let mut context = ClientContext::new();
    let action =
        openai_handle(&mut session, &mut context, OpenAiEvent::Connected("Hi.".to_string()));
    assert_eq!(action, OpenAiAction::Send(session_update_event("Hi.")));
    assert_eq!(context, ClientContext { openai_tx: true, ..ClientContext::new() });
}

#[test]
fn the_senders_start_once() {
    let mut session = OpenAiSession::new();
    let mut context = OPEN;
    let action = openai_handle(&mut session, &mut context, resp("session.created", None));
    assert_eq!(action, OpenAiAction::Read);
    assert!(!context.openai_connected);
    let action = openai_handle(&mut session, &mut context, resp("session.updated", None));
    assert_eq!(action, OpenAiAction::StartSenders);
    assert_eq!(context, ClientContext { openai_connected: true, ..OPEN });
    let action = openai_handle(&mut session, &mut context, resp("session.updated", Some("x")));
    assert_eq!(action, OpenAiAction::Read);
    assert!(session.got_session);
}

#[test]
fn the_conversation_ends_with_the_web_socket() {
    for (event, action) in [
        (OpenAiEvent::Closed, OpenAiAction::Stop),
        (OpenAiEvent::ReadFailed, OpenAiAction::Stop),
        (OpenAiEvent::NonText, OpenAiAction::Read),
        (OpenAiEvent::Undecodable, OpenAiAction::Read),
    ] {
        let mut session = OpenAiSession::new();
        let mut context = OPEN;
        assert_eq!(openai_handle(&mut session, &mut context, event), action);
        assert_eq!(context, OPEN);
    }
}

#[test]
fn deltas_are_taken_and_refused() {
    let mut session = OpenAiSession::new();
    let mut context = OPEN;
    let typ = "response.audio.delta";
    assert_eq!(openai_handle(&mut session, &mut context, resp(typ, None)), OpenAiAction::Read);
    assert_eq!(
        openai_handle(&mut session, &mut context, resp(typ, Some("?"))),
        OpenAiAction::Refused(DeltaError::NotBase64)
    );
    assert_eq!(
        openai_handle(&mut session, &mut context, resp(typ, Some(""))),
        OpenAiAction::Refused(DeltaError::BadLength)
    );
    assert_eq!(
        openai_handle(&mut session, &mut context, resp(typ, Some("AQD//w=="))),
        OpenAiAction::Encode(vec![])
    );
    assert_eq!(session.sample_buf, vec![1, -1]);
    // 478 samples of silence fill the frame.
    let silence = "A".repeat(1272) + "AAA=";
    match openai_handle(&mut session, &mut context, resp(typ, Some(&silence))) {
        OpenAiAction::Encode(frames) => {
            assert_eq!(frames.len(), 1);
            assert_eq!(frames[0].len(), 480);
            assert_eq!(frames[0][0..3], [1, -1, 0]);
        }
        _ => panic!("no frame"),
    }
    assert!(session.sample_buf.is_empty());
    let other = resp("response.done", Some("AQD//w=="));
    assert_eq!(openai_handle(&mut session, &mut context, other), OpenAiAction::Read);
    assert!(session.sample_buf.is_empty());
}

#[test]
fn speech_reaches_the_encoder_in_order() {
    let mut session = OpenAiSession::new();
    let mut context = OPEN;
    let mut frames = Vec::new();
    for i in 0..1000_u16 {
        // Two samples at a time, with other events in between.
        let bytes = [(i % 256) as u8, (i / 256) as u8, 7, 0];
        let text = base64_of(&bytes);
        let event = resp("response.audio.delta", Some(&text));
        match openai_handle(&mut session, &mut context, event) {
            OpenAiAction::Encode(more) => frames.extend(more),
            _ => panic!("refused"),
        }
        openai_handle(&mut session, &mut context, resp("session.updated", None));
        openai_handle(&mut session, &mut context, resp("response.audio.delta", Some("!")));
    }
    let mut all: Vec<i16> = frames.concat();
    assert_eq!(frames.len(), 4);
    all.extend_from_slice(&session.sample_buf);
    let expected: Vec<i16> = (0..1000_i16).flat_map(|i| [i, 7]).collect();
    assert_eq!(all, expected);
}

fn base64_of(bytes: &[u8]) -> String {
    BASE64_STANDARD.encode(bytes)
}

#[test]
fn texts_are_compared_and_labelled() {
    assert!(text_is(&"INIT".to_string(), "INIT"));
    assert!(!text_is(&"INIT ".to_string(), "INIT"));
    assert_eq!(labelled("a: ", "b"), "a: b");
}

#[test]
fn the_first_report_starts_the_senders() {
    let mut session = OpenAiSession::new();
    let mut context = ClientContext::new();
    let mut started = Vec::new();
    let events = vec![
        OpenAiEvent::Connected("Hi.".to_string()),
        OpenAiEvent::NonText,
        resp("response.audio.delta", Some("AQD//w==")),
        OpenAiEvent::Undecodable,
        resp("session.update", None),
        resp("session.updated", None),
        resp("response.audio.delta", Some("?")),
        resp("session.updated", None),
    ];
    for (k, event) in events.into_iter().enumerate() {
        if openai_handle(&mut session, &mut context, event) == OpenAiAction::StartSenders {
            started.push(k);
        }
        assert_eq!(context.openai_connected, k >= 5);
    }
    assert_eq!(started, vec![5]);
}

#[test]
fn skipped_events_change_nothing() {
    let kept = || {
        vec![
            OpenAiEvent::Connected("Hi.".to_string()),
            resp("session.updated", None),
            resp("response.audio.delta", Some("AQD//w==")),
        ]
    };
    let mut plain = (OpenAiSession::new(), ClientContext::new());
    let mut mixed = (OpenAiSession::new(), ClientContext::new());
    for event in kept() {
        openai_handle(&mut plain.0, &mut plain.1, event);
    }
    for event in kept() {
        for skipped in [
            OpenAiEvent::NonText,
            OpenAiEvent::Undecodable,
            resp("", None),
            resp("response.done", Some("AQD//w==")),
            resp("response.audio.delta", None),
        ] {
            let context = mixed.1;
            assert_eq!(
                openai_handle(&mut mixed.0, &mut mixed.1, skipped),
                OpenAiAction::Read
            );
            assert_eq!(mixed.1, context);
        }
        openai_handle(&mut mixed.0, &mut mixed.1, event);
    }
    assert_eq!(mixed, plain);
    assert_eq!(mixed.0.sample_buf, vec![1, -1]);
}
