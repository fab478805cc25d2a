use openai_realtime_demo::candidate::{IceCandidate, LocalCandidate};
use openai_realtime_demo::context::ClientContext;
use openai_realtime_demo::messages::MyMsg;
use openai_realtime_demo::signalling::{
    ice_candidate_added, ice_candidate_read, ice_server_msg, rtc_ice, rtc_track, ws_handle,
    ws_handle_ice, ws_handle_init, ws_handle_unknown, Negotiation, NegotiationResult,
    NegotiationStage, PeerRequest, RtcIceAction, SdpKind, TrackCodec, WsAction, WsEvent,
};

fn msg(op: &str, data: &str) -> MyMsg {
    MyMsg { op: op.to_string(), data: data.to_string() }
}

fn err(text: &str) -> MyMsg {
    msg("ERR", text)
}

fn connected() -> ClientContext {
    ClientContext { rtc_peer: true, local_track: true, ..ClientContext::new() }
}

fn candidate() -> IceCandidate {
    IceCandidate {
        candidate: "candidate:1 1 udp 2130706431 10.0.0.1 4242 typ host".to_string(),
        sdp_mid: Some("0".to_string()),
        sdp_mline_index: Some(0),
        username_fragment: None,
    }
}

fn local() -> LocalCandidate {
    LocalCandidate {
        foundation: "1".to_string(),
        priority: 2130706431,
        address: "10.0.0.1".to_string(),
        protocol: "udp".to_string(),
        port: 4242,
        kind: "host".to_string(),
        component: 1,
        related_address: String::new(),
        related_port: 0,
    }
}

#[test]
fn a_new_client_has_nothing() {
    let context = ClientContext::new();
    assert!(!context.rtc_peer && !context.local_track && !context.have_remote_track);
    assert!(!context.openai_connected && !context.openai_tx);
}

#[test]
fn the_conversation_goes_on_until_the_web_socket_ends() {
    let context = ClientContext::new();
    assert_eq!(ws_handle(&context, WsEvent::Closed), WsAction::Stop);
    assert_eq!(ws_handle(&context, WsEvent::Failed), WsAction::Stop);
    assert_eq!(ws_handle(&context, WsEvent::NonText), WsAction::Receive);
    assert_eq!(
        ws_handle(&context, WsEvent::Undecodable),
        WsAction::Reply(err("Unable to deserialize received data"))
    );
}

#[test]
fn an_unknown_op_is_refused() {
    for op in ["", "init", "INIT_RESP", "ICE_SERVER", "ICE_CLIENT "] {
        assert_eq!(
            ws_handle(&connected(), WsEvent::Received(msg(op, "x"))),
            WsAction::Reply(err("Unknown op in received data"))
        );
    }
    assert_eq!(ws_handle_unknown(), "Unknown op in received data");
}

#[test]
fn an_offer_starts_a_negotiation() {
    let expected = Negotiation {
        stage: NegotiationStage::NewPeer,
        offer: "v=0".to_string(),
        answer: String::new(),
    };
    assert_eq!(
        ws_handle(&ClientContext::new(), WsEvent::Received(msg("INIT", "v=0"))),
        WsAction::Negotiate(expected)
    );
}

#[test]
fn there_is_one_peer_per_client() {
    assert_eq!(
        ws_handle(&connected(), WsEvent::Received(msg("INIT", "v=0"))),
        WsAction::Reply(err("RTC peer already initialized"))
    );
    assert_eq!(
        ws_handle_init(&connected(), &msg("INIT", "v=0")),
        Err("RTC peer already initialized".to_string())
    );
}

#[test]
fn a_negotiation_gives_the_answer() {
    let mut context = ClientContext::new();
    let mut n = ws_handle_init(&context, &msg("INIT", "offer")).unwrap();
    let mut asked = Vec::new();
    for answer in ["a", "b", "c", "answer"] {
        asked.push(n.request());
        n = match n.advance(&mut context, Ok(answer.to_string())) {
            NegotiationResult::Continue(n) => n,
            _ => panic!("ended early"),
        };
        assert_eq!(context, ClientContext::new());
    }
    asked.push(n.request());
    assert_eq!(
        asked,
        vec![
            PeerRequest::NewPeer,
            PeerRequest::AddTrack(TrackCodec {
                mime_type: "audio/opus".to_string(),
                clock_rate: 48000,
                channels: 2,
                sdp_fmtp_line: String::new(),
                rtcp_feedback: Vec::new(),
                id: "webrtc".to_string(),
                stream_id: "webrtc".to_string(),
            }),
            PeerRequest::SetRemote { kind: SdpKind::Offer, sdp: "offer".to_string() },
            PeerRequest::CreateAnswer,
            PeerRequest::SetLocal("answer".to_string()),
        ]
    );
    assert_eq!(
        n.advance(&mut context, Ok("e".to_string())),
        NegotiationResult::Finished(msg("INIT_RESP", "answer"))
    );
    assert_eq!(context, connected());
}

#[test]
fn a_failed_negotiation_leaves_nothing() {
    let labels = [
        "RTC new_peer_connection: ",
        "RTC add_track: ",
        "RTC set_remote_description: ",
        "RTC create_answer: ",
        "RTC set_local_description: ",
    ];
    for (failing, label) in labels.iter().enumerate() {
        let mut context = ClientContext::new();
        let mut n = ws_handle_init(&context, &msg("INIT", "offer")).unwrap();
        for _ in 0..failing {
            n = match n.advance(&mut context, Ok(String::new())) {
                NegotiationResult::Continue(n) => n,
                _ => panic!("ended early"),
            };
        }
        assert_eq!(
            n.advance(&mut context, Err("boom".to_string())),
            NegotiationResult::Failed(err(&format!("{}boom", label)))
        );
        assert_eq!(context, ClientContext::new());
        assert!(ws_handle_init(&context, &msg("INIT", "offer")).is_ok());
    }
}

#[test]
fn a_candidate_needs_a_peer() {
    assert_eq!(
        ws_handle(&ClientContext::new(), WsEvent::Received(msg("ICE_CLIENT", "{}"))),
        WsAction::Reply(err("RTC peer not initialized yet"))
    );
}

#[test]
fn a_candidate_is_read() {
    let data = concat_all(&[
        "{\"candidate\":\"candidate:1 1 udp 2130706431 10.0.0.1 4242 typ host\",",
        "\"sdpMid\":\"0\",\"sdpMLineIndex\":0}",
    ]);
    assert_eq!(
        ws_handle(&connected(), WsEvent::Received(msg("ICE_CLIENT", &data))),
        WsAction::AddCandidate(candidate())
    );
    assert_eq!(ws_handle_ice(&connected(), &msg("ICE_CLIENT", &data)), Ok(candidate()));
}

fn concat_all(parts: &[&str]) -> String {
    parts.concat()
}

#[test]
fn a_bad_candidate_is_refused() {
    assert_eq!(
        ws_handle(&connected(), WsEvent::Received(msg("ICE_CLIENT", ""))),
        WsAction::Reply(err(
            "RTC unable to parse ICE: EOF while parsing a value at line 1 column 0"
        ))
    );
    assert_eq!(
        ws_handle_ice(&connected(), &msg("ICE_CLIENT", "{}")),
        Err("RTC unable to parse ICE: missing field `candidate` at line 1 column 2".to_string())
    );
    assert_eq!(
        ice_candidate_read(Err("why".to_string())),
        Err("RTC unable to parse ICE: why".to_string())
    );
    assert_eq!(ice_candidate_read(Ok(candidate())), Ok(candidate()));
}

#[test]
fn a_candidate_that_cannot_be_added_is_reported() {
    assert_eq!(ice_candidate_added(Ok(())), None);
    assert_eq!(
        ice_candidate_added(Err("closed".to_string())),
        Some(err("RTC add_ice_candidate: closed"))
    );
}

#[test]
fn a_candidate_is_told_and_read_back() {
    let told = ice_server_msg(candidate());
    assert_eq!(
        told,
        msg(
            "ICE_SERVER",
            &concat_all(&[
                "{\"candidate\":\"candidate:1 1 udp 2130706431 10.0.0.1 4242 typ host\",",
                "\"sdpMid\":\"0\",\"sdpMLineIndex\":0,\"usernameFragment\":null}",
            ])
        )
    );
    assert_eq!(ws_handle_ice(&connected(), &told), Ok(candidate()));
    let odd = IceCandidate {
        candidate: "\"\\\n\u{1}\u{e9}".to_string(),
        sdp_mid: None,
        sdp_mline_index: None,
        username_fragment: Some("a/b".to_string()),
    };
    let told = ice_server_msg(IceCandidate {
        candidate: "\"\\\n\u{1}\u{e9}".to_string(),
        sdp_mid: None,
        sdp_mline_index: None,
        username_fragment: Some("a/b".to_string()),
    });
    assert_eq!(
        told.data,
        concat_all(&[
            "{\"candidate\":\"\\\"\\\\\\n\\u0001\u{e9}\",\"sdpMid\":null,",
            "\"sdpMLineIndex\":null,\"usernameFragment\":\"a/b\"}",
        ])
    );
    assert_eq!(ws_handle_ice(&connected(), &told), Ok(odd));
}

#[test]
fn a_gathered_candidate_is_told() {
    assert_eq!(rtc_ice(None), RtcIceAction::Skip);
    assert_eq!(
        rtc_ice(Some(local())),
        RtcIceAction::Send(msg(
            "ICE_SERVER",
            &concat_all(&[
                "{\"candidate\":\"candidate:1 1 udp 2130706431 10.0.0.1 4242 typ host\",",
                "\"sdpMid\":\"\",\"sdpMLineIndex\":0,\"usernameFragment\":null}",
            ])
        ))
    );
    let relay = LocalCandidate {
        kind: "relay".to_string(),
        protocol: "tcp".to_string(),
        related_address: "192.0.2.7".to_string(),
        related_port: 99,
        ..local()
    };
    assert_eq!(
        rtc_ice(Some(relay)),
        RtcIceAction::Send(msg(
            "ICE_SERVER",
            &concat_all(&[
                "{\"candidate\":\"candidate:1 1 tcp 2130706431 10.0.0.1 4242 typ relay",
                " raddr 192.0.2.7 rport 99\",",
                "\"sdpMid\":\"\",\"sdpMLineIndex\":0,\"usernameFragment\":null}",
            ])
        ))
    );
}

#[test]
fn a_candidate_without_ice_form_is_not_told() {
    for (address, protocol, kind) in [
        ("nowhere", "udp", "host"),
        ("10.0.0.1", "Unspecified", "host"),
        ("10.0.0.1", "udp", "Unspecified"),
    ] {
        let odd = LocalCandidate {
            address: address.to_string(),
            protocol: protocol.to_string(),
            kind: kind.to_string(),
            ..local()
        };
        assert_eq!(rtc_ice(Some(odd)), RtcIceAction::Invalid);
    }
}

#[test]
fn the_first_opus_track_is_taken() {
    let mut context = connected();
    assert_eq!(rtc_track(&mut context, "audio/PCMU"), Err(err("RTC: unsupported codec")));
    assert_eq!(rtc_track(&mut context, "audio/OPUS"), Err(err("RTC: unsupported codec")));
    assert_eq!(context, connected());
    assert_eq!(rtc_track(&mut context, "audio/opus"), Ok(()));
    assert_eq!(context, ClientContext { have_remote_track: true, ..connected() });
    assert_eq!(
        rtc_track(&mut context, "audio/opus"),
        Err(err("RTC: already have remote track"))
    );
    assert_eq!(
        rtc_track(&mut context, "video/VP8"),
        Err(err("RTC: already have remote track"))
    );
    assert_eq!(context, ClientContext { have_remote_track: true, ..connected() });
}
