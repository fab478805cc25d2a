//! The conversation with the browser: what to do about each message on its web
//! socket, how a peer connection is negotiated, and which track is taken.

use crate::candidate::{
    candidate_text, candidate_to_text, parse_candidate, parsed_candidate, to_travelling,
    travelling_candidate, IceCandidate, IceCandidateView, LocalCandidate,
};
use crate::context::ClientContext;
use crate::messages::{error_msg, labelled, text_is, MyMsg, MyMsgView};
use vstd::prelude::*;

verus! {

/// What came of waiting for the browser.
#[derive(Debug, PartialEq, Eq)]
pub enum WsEvent {
    /// The web socket was closed.
    Closed,
    /// Reading failed.
    Failed,
    /// A frame came that is no text.
    NonText,
    /// A text came that is no message.
    Undecodable,
    /// A message came.
    Received(MyMsg),
}

/// What to do next.
#[derive(Debug, PartialEq, Eq)]
pub enum WsAction {
    /// Leave the conversation.
    Stop,
    /// Wait for the browser.
    Receive,
    /// Send a message, and wait for the browser.
    Reply(MyMsg),
    /// Negotiate a peer connection, and then wait for the browser.
    Negotiate(Negotiation),
    /// Hand a candidate to the peer connection.
    AddCandidate(IceCandidate),
}

/// The steps of a negotiation.
#[derive(Debug, Clone, Copy, PartialEq, Eq, Structural)]
pub enum NegotiationStage {
    NewPeer,
    AddTrack,
    SetRemote,
    CreateAnswer,
    SetLocal,
}

/// A negotiation that is under way.
#[derive(Debug, PartialEq, Eq)]
pub struct Negotiation {
    /// The step that is to be taken.
    pub stage: NegotiationStage,
    /// The browser's session description.
    pub offer: String,
    /// This side's session description; empty before it was created.
    pub answer: String,
}

/// How the audio on the track to the browser is coded.
#[derive(Debug, PartialEq, Eq)]
pub struct TrackCodec {
    pub mime_type: String,
    pub clock_rate: u32,
    pub channels: u16,
    pub sdp_fmtp_line: String,
    /// The kinds of feedback on the media that are asked for: type and parameter of each.
    pub rtcp_feedback: Vec<(String, String)>,
    /// The name of the track.
    pub id: String,
    /// The name of its stream.
    pub stream_id: String,
}

/// The kinds of session descriptions.
#[derive(Debug, Clone, Copy, PartialEq, Eq, Structural)]
pub enum SdpKind {
    Offer,
    Pranswer,
    Answer,
    Rollback,
}

/// What a step of a negotiation asks for.
#[derive(Debug, PartialEq, Eq)]
pub enum PeerRequest {
    /// Make a peer connection, and register for its candidates and its tracks.
    NewPeer,
    /// Make a track to the browser and add it.
    AddTrack(TrackCodec),
    /// Set the browser's session description.
    SetRemote { kind: SdpKind, sdp: String },
    /// Create an answer.
    CreateAnswer,
    /// Set the answer as this side's session description.
    SetLocal(String),
}

/// What came of a step of a negotiation.
#[derive(Debug, PartialEq, Eq)]
pub enum NegotiationResult {
    /// Go on with the next step.
    Continue(Negotiation),
    /// Give the peer connection up and send the message.
    Failed(MyMsg),
    /// Keep the peer connection and the track, and send the message.
    Finished(MyMsg),
}

/// What to do about a candidate that was gathered on this side.
#[derive(Debug, PartialEq, Eq)]
pub enum RtcIceAction {
    /// Nothing: there was no candidate.
    Skip,
    /// Send the message.
    Send(MyMsg),
    /// Give up: the candidate has no ICE form.
    Invalid,
}

/// What a `WsAction` holds.
pub enum WsActionView {
    Stop,
    Receive,
    Reply(MyMsgView),
    Negotiate(NegotiationView),
    AddCandidate(IceCandidateView),
}

impl View for WsAction {
    type V = WsActionView;

    open spec fn view(&self) -> WsActionView {
        match *self {
            WsAction::Stop => WsActionView::Stop,
            WsAction::Receive => WsActionView::Receive,
            WsAction::Reply(m) => WsActionView::Reply(m@),
            WsAction::Negotiate(n) => WsActionView::Negotiate(n@),
            WsAction::AddCandidate(c) => WsActionView::AddCandidate(c@),
        }
    }
}

/// What a `Negotiation` holds.
pub struct NegotiationView {
    pub stage: NegotiationStage,
    pub offer: Seq<char>,
    pub answer: Seq<char>,
}

impl View for Negotiation {
    type V = NegotiationView;

    open spec fn view(&self) -> NegotiationView {
        NegotiationView { stage: self.stage, offer: self.offer@, answer: self.answer@ }
    }
}

/// What a `NegotiationResult` holds.
pub enum NegotiationResultView {
    Continue(NegotiationView),
    Failed(MyMsgView),
    Finished(MyMsgView),
}

impl View for NegotiationResult {
    type V = NegotiationResultView;

    open spec fn view(&self) -> NegotiationResultView {
        match *self {
            NegotiationResult::Continue(n) => NegotiationResultView::Continue(n@),
            NegotiationResult::Failed(m) => NegotiationResultView::Failed(m@),
            NegotiationResult::Finished(m) => NegotiationResultView::Finished(m@),
        }
    }
}

/// The negotiation that an offer starts.
pub open spec fn negotiation_start(offer: Seq<char>) -> NegotiationView {
    NegotiationView { stage: NegotiationStage::NewPeer, offer, answer: seq![] }
}

/// What an `INIT` message leads to: one peer connection, and no second one.
pub open spec fn init_outcome(context: ClientContext, offer: Seq<char>) -> Result<
    NegotiationView,
    Seq<char>,
> {
    if context.rtc_peer {
        Err("RTC peer already initialized"@)
    } else {
        Ok(negotiation_start(offer))
    }
}

/// What reading a candidate leads to.
pub open spec fn ice_read_outcome(read: Result<IceCandidateView, Seq<char>>) -> Result<
    IceCandidateView,
    Seq<char>,
> {
    match read {
        Ok(c) => Ok(c),
        Err(e) => Err("RTC unable to parse ICE: "@ + e),
    }
}

/// What an `ICE_CLIENT` message leads to, given what was read out of its data.
pub open spec fn ice_outcome(
    context: ClientContext,
    read: Result<IceCandidateView, Seq<char>>,
) -> Result<IceCandidateView, Seq<char>> {
    if context.rtc_peer {
        ice_read_outcome(read)
    } else {
        Err("RTC peer not initialized yet"@)
    }
}

/// What to do about a message, given what its data reads as when it is taken for a
/// candidate.
pub open spec fn message_action(
    context: ClientContext,
    msg: MyMsgView,
    read: Result<IceCandidateView, Seq<char>>,
) -> WsActionView {
    if msg.op == "INIT"@ {
        match init_outcome(context, msg.data) {
            Ok(n) => WsActionView::Negotiate(n),
            Err(e) => WsActionView::Reply(error_msg(e)),
        }
    } else if msg.op == "ICE_CLIENT"@ {
        match ice_outcome(context, read) {
            Ok(c) => WsActionView::AddCandidate(c),
            Err(e) => WsActionView::Reply(error_msg(e)),
        }
    } else {
        WsActionView::Reply(error_msg("Unknown op in received data"@))
    }
}

/// What to do about an event.
pub open spec fn ws_action(context: ClientContext, event: WsEvent) -> WsActionView {
    match event {
        WsEvent::Closed => WsActionView::Stop,
        WsEvent::Failed => WsActionView::Stop,
        WsEvent::NonText => WsActionView::Receive,
        WsEvent::Undecodable => WsActionView::Reply(
            error_msg("Unable to deserialize received data"@),
        ),
        WsEvent::Received(msg) => message_action(context, msg@, parsed_candidate(msg@.data)),
    }
}

/// How an error of a step is labelled.
pub open spec fn stage_label(stage: NegotiationStage) -> Seq<char> {
    match stage {
        NegotiationStage::NewPeer => "RTC new_peer_connection: "@,
        NegotiationStage::AddTrack => "RTC add_track: "@,
        NegotiationStage::SetRemote => "RTC set_remote_description: "@,
        NegotiationStage::CreateAnswer => "RTC create_answer: "@,
        NegotiationStage::SetLocal => "RTC set_local_description: "@,
    }
}

/// What comes of a step. A step that creates an answer succeeds with its text; what
/// another step succeeds with does not matter.
pub open spec fn negotiation_step(
    n: NegotiationView,
    outcome: Result<Seq<char>, Seq<char>>,
) -> NegotiationResultView {
    match outcome {
        Err(e) => NegotiationResultView::Failed(error_msg(stage_label(n.stage) + e)),
        Ok(text) => match n.stage {
            NegotiationStage::NewPeer => NegotiationResultView::Continue(
                NegotiationView { stage: NegotiationStage::AddTrack, ..n },
            ),
            NegotiationStage::AddTrack => NegotiationResultView::Continue(
                NegotiationView { stage: NegotiationStage::SetRemote, ..n },
            ),
            NegotiationStage::SetRemote => NegotiationResultView::Continue(
                NegotiationView { stage: NegotiationStage::CreateAnswer, ..n },
            ),
            NegotiationStage::CreateAnswer => NegotiationResultView::Continue(
                NegotiationView { stage: NegotiationStage::SetLocal, answer: text, ..n },
            ),
            NegotiationStage::SetLocal => NegotiationResultView::Finished(
                MyMsgView { op: "INIT_RESP"@, data: n.answer },
            ),
        },
    }
}

/// The context after a step: a finished negotiation leaves the peer connection and
/// the track to the browser, any other step leaves nothing.
pub open spec fn context_after(
    context: ClientContext,
    result: NegotiationResultView,
) -> ClientContext {
    match result {
        NegotiationResultView::Finished(_) => ClientContext {
            rtc_peer: true,
            local_track: true,
            ..context
        },
        _ => context,
    }
}

/// What comes of taking all steps from `n` on, the `i`-th with the `i`-th outcome.
pub open spec fn negotiated(
    n: NegotiationView,
    outcomes: Seq<Result<Seq<char>, Seq<char>>>,
) -> NegotiationResultView
    decreases outcomes.len(),
{
    if outcomes.len() == 0 {
        NegotiationResultView::Continue(n)
    } else {
        match negotiation_step(n, outcomes[0]) {
            NegotiationResultView::Continue(m) => negotiated(m, outcomes.skip(1)),
            result => result,
        }
    }
}

/// Why a track of the browser is not taken, if so.
pub open spec fn track_refusal(context: ClientContext, mime_type: Seq<char>) -> Option<Seq<char>> {
    if context.have_remote_track {
        Some("RTC: already have remote track"@)
    } else if mime_type != "audio/opus"@ {
        Some("RTC: unsupported codec"@)
    } else {
        None
    }
}

/// A text or the text of an error.
pub open spec fn text_result(result: Result<String, String>) -> Result<Seq<char>, Seq<char>> {
    match result {
        Ok(t) => Ok(t@),
        Err(e) => Err(e@),
    }
}

/// A candidate or the text of an error.
pub open spec fn candidate_result(result: Result<IceCandidate, String>) -> Result<
    IceCandidateView,
    Seq<char>,
> {
    match result {
        Ok(c) => Ok(c@),
        Err(e) => Err(e@),
    }
}

/// The media type of Opus audio: the constant `MIME_TYPE_OPUS` of the `webrtc` crate.
#[verifier::external_body]
fn mime_type_opus() -> (mime_type: &'static str)
    ensures
        mime_type@ == "audio/opus"@,
{
    webrtc::api::media_engine::MIME_TYPE_OPUS
}

/// Decides what to do about an event on the browser's web socket.
pub fn ws_handle(context: &ClientContext, event: WsEvent) -> (action: WsAction)
    ensures
        action@ == ws_action(*context, event),
        match event {
            WsEvent::Closed => action is Stop,
            WsEvent::Failed => action is Stop,
            WsEvent::NonText => action is Receive,
            WsEvent::Undecodable => {
                &&& action matches WsAction::Reply(m)
                &&& m.op@ == "ERR"@
                &&& m.data@ == "Unable to deserialize received data"@
            },
            WsEvent::Received(msg) => if msg.op@ == "INIT"@ {
                if context.rtc_peer {
                    &&& action matches WsAction::Reply(m)
                    &&& m.op@ == "ERR"@
                    &&& m.data@ == "RTC peer already initialized"@
                } else {
                    &&& action matches WsAction::Negotiate(n)
                    &&& n.stage is NewPeer
                    &&& n.offer@ == msg.data@
                    &&& n.answer@.len() == 0
                }
            } else if msg.op@ == "ICE_CLIENT"@ {
                if context.rtc_peer {
                    match parsed_candidate(msg.data@) {
                        Ok(read) => {
                            &&& action matches WsAction::AddCandidate(c)
                            &&& c@ == read
                        },
                        Err(e) => {
                            &&& action matches WsAction::Reply(m)
                            &&& m.op@ == "ERR"@
                            &&& m.data@ == "RTC unable to parse ICE: "@ + e
                        },
                    }
                } else {
                    &&& action matches WsAction::Reply(m)
                    &&& m.op@ == "ERR"@
                    &&& m.data@ == "RTC peer not initialized yet"@
                }
            } else {
                &&& action matches WsAction::Reply(m)
                &&& m.op@ == "ERR"@
                &&& m.data@ == "Unknown op in received data"@
            },
        },
{
    match event {
        WsEvent::Closed => WsAction::Stop,
        WsEvent::Failed => WsAction::Stop,
        WsEvent::NonText => WsAction::Receive,
        WsEvent::Undecodable => WsAction::Reply(
            MyMsg::error("Unable to deserialize received data".to_string()),
        ),
        WsEvent::Received(msg) => {
            if text_is(&msg.op, "INIT") {
                match ws_handle_init(context, &msg) {
                    Ok(n) => WsAction::Negotiate(n),
                    Err(e) => WsAction::Reply(MyMsg::error(e)),
                }
            } else if text_is(&msg.op, "ICE_CLIENT") {
                match ws_handle_ice(context, &msg) {
                    Ok(c) => WsAction::AddCandidate(c),
                    Err(e) => WsAction::Reply(MyMsg::error(e)),
                }
            } else {
                WsAction::Reply(MyMsg::error(ws_handle_unknown()))
            }
        },
    }
}

/// Starts a negotiation for an `INIT` message, unless the client has a peer
/// connection already.
pub fn ws_handle_init(context: &ClientContext, msg: &MyMsg) -> (result: Result<
    Negotiation,
    String,
>)
    ensures
        match result {
            Ok(n) => init_outcome(*context, msg@.data) == Ok::<NegotiationView, Seq<char>>(n@),
            Err(e) => init_outcome(*context, msg@.data) == Err::<NegotiationView, Seq<char>>(e@),
        },
        match result {
            Ok(n) => {
                &&& !context.rtc_peer
                &&& n.stage is NewPeer
                &&& n.offer@ == msg.data@
                &&& n.answer@.len() == 0
            },
            Err(e) => context.rtc_peer && e@ == "RTC peer already initialized"@,
        },
{
    if context.rtc_peer {
        return Err("RTC peer already initialized".to_string());
    }
    let n = Negotiation {
        stage: NegotiationStage::NewPeer,
        offer: msg.data.clone(),
        answer: String::new(),
    };
    assert(n@ == negotiation_start(msg@.data)) by {
        assert(n@.answer =~= seq![]);
    }
    Ok(n)
}

impl Negotiation {
    /// What the step that is to be taken asks for.
    pub fn request(&self) -> (request: PeerRequest)
        ensures
            match self.stage {
                NegotiationStage::NewPeer => request is NewPeer,
                NegotiationStage::AddTrack => {
                    &&& request matches PeerRequest::AddTrack(codec)
                    &&& codec.mime_type@ == "audio/opus"@
                    &&& codec.clock_rate == 48000
                    &&& codec.channels == 2
                    &&& codec.sdp_fmtp_line@ == ""@
                    &&& codec.rtcp_feedback@.len() == 0
                    &&& codec.id@ == "webrtc"@
                    &&& codec.stream_id@ == "webrtc"@
                },
                NegotiationStage::SetRemote => {
                    &&& request matches PeerRequest::SetRemote { kind, sdp }
                    &&& kind is Offer
                    &&& sdp@ == self@.offer
                    &&& sdp@ == self.offer@
                },
                NegotiationStage::CreateAnswer => request is CreateAnswer,
                NegotiationStage::SetLocal => {
                    &&& request matches PeerRequest::SetLocal(sdp)
                    &&& sdp@ == self@.answer
                    &&& sdp@ == self.answer@
                },
            },
    {
        match self.stage {
            NegotiationStage::NewPeer => PeerRequest::NewPeer,
            NegotiationStage::AddTrack => PeerRequest::AddTrack(
                TrackCodec {
                    mime_type: mime_type_opus().to_string(),
                    clock_rate: 48000,
                    channels: 2,
                    sdp_fmtp_line: "".to_string(),
                    rtcp_feedback: Vec::new(),
                    id: "webrtc".to_string(),
                    stream_id: "webrtc".to_string(),
                },
            ),
            NegotiationStage::SetRemote => PeerRequest::SetRemote {
                kind: SdpKind::Offer,
                sdp: self.offer.clone(),
            },
            NegotiationStage::CreateAnswer => PeerRequest::CreateAnswer,
            NegotiationStage::SetLocal => PeerRequest::SetLocal(self.answer.clone()),
        }
    }

    /// Goes on after a step, given what came of it.
    pub fn advance(
        self,
        context: &mut ClientContext,
        outcome: Result<String, String>,
    ) -> (result: NegotiationResult)
        ensures
            result@ == negotiation_step(self@, text_result(outcome)),
            match outcome {
                Err(e) => {
                    &&& result matches NegotiationResult::Failed(m)
                    &&& m.op@ == "ERR"@
                    &&& m.data@ == (match self.stage {
                        NegotiationStage::NewPeer => "RTC new_peer_connection: "@,
                        NegotiationStage::AddTrack => "RTC add_track: "@,
                        NegotiationStage::SetRemote => "RTC set_remote_description: "@,
                        NegotiationStage::CreateAnswer => "RTC create_answer: "@,
                        NegotiationStage::SetLocal => "RTC set_local_description: "@,
                    }) + e@
                    &&& *final(context) == *old(context)
                },
                Ok(text) => match self.stage {
                    NegotiationStage::NewPeer => {
                        &&& result matches NegotiationResult::Continue(n)
                        &&& n.stage is AddTrack
                        &&& n.offer@ == self.offer@
                        &&& n.answer@ == self.answer@
                        &&& *final(context) == *old(context)
                    },
                    NegotiationStage::AddTrack => {
                        &&& result matches NegotiationResult::Continue(n)
                        &&& n.stage is SetRemote
                        &&& n.offer@ == self.offer@
                        &&& n.answer@ == self.answer@
                        &&& *final(context) == *old(context)
                    },
                    NegotiationStage::SetRemote => {
                        &&& result matches NegotiationResult::Continue(n)
                        &&& n.stage is CreateAnswer
                        &&& n.offer@ == self.offer@
                        &&& n.answer@ == self.answer@
                        &&& *final(context) == *old(context)
                    },
                    NegotiationStage::CreateAnswer => {
                        &&& result matches NegotiationResult::Continue(n)
                        &&& n.stage is SetLocal
                        &&& n.offer@ == self.offer@
                        &&& n.answer@ == text@
                        &&& *final(context) == *old(context)
                    },
                    NegotiationStage::SetLocal => {
                        &&& result matches NegotiationResult::Finished(m)
                        &&& m.op@ == "INIT_RESP"@
                        &&& m.data@ == self.answer@
                        &&& *final(context) == ClientContext {
                            rtc_peer: true,
                            local_track: true,
                            ..*old(context)
                        }
                    },
                },
            },
            *final(context) == context_after(*old(context), result@),
            old(context).grows_to(*final(context)),
            old(context).wf() ==> final(context).wf(),
    {
        match outcome {
            Err(e) => {
                let label = match self.stage {
                    NegotiationStage::NewPeer => "RTC new_peer_connection: ",
                    NegotiationStage::AddTrack => "RTC add_track: ",
                    NegotiationStage::SetRemote => "RTC set_remote_description: ",
                    NegotiationStage::CreateAnswer => "RTC create_answer: ",
                    NegotiationStage::SetLocal => "RTC set_local_description: ",
                };
                NegotiationResult::Failed(MyMsg::error(labelled(label, e.as_str())))
            },
            Ok(text) => match self.stage {
                NegotiationStage::NewPeer => NegotiationResult::Continue(
                    Negotiation {
                        stage: NegotiationStage::AddTrack,
                        offer: self.offer,
                        answer: self.answer,
                    },
                ),
                NegotiationStage::AddTrack => NegotiationResult::Continue(
                    Negotiation {
                        stage: NegotiationStage::SetRemote,
                        offer: self.offer,
                        answer: self.answer,
                    },
                ),
                NegotiationStage::SetRemote => NegotiationResult::Continue(
                    Negotiation {
                        stage: NegotiationStage::CreateAnswer,
                        offer: self.offer,
                        answer: self.answer,
                    },
                ),
                NegotiationStage::CreateAnswer => NegotiationResult::Continue(
                    Negotiation {
                        stage: NegotiationStage::SetLocal,
                        offer: self.offer,
                        answer: text,
                    },
                ),
                NegotiationStage::SetLocal => {
                    context.rtc_peer = true;
                    context.local_track = true;
                    NegotiationResult::Finished(MyMsg::new("INIT_RESP", self.answer))
                },
            },
        }
    }
}

/// Reads the candidate out of an `ICE_CLIENT` message, if the client has a peer
/// connection to hand it to. Data that a candidate was written as gives that candidate
/// back.
pub fn ws_handle_ice(context: &ClientContext, msg: &MyMsg) -> (result: Result<
    IceCandidate,
    String,
>)
    ensures
        candidate_result(result) == ice_outcome(*context, parsed_candidate(msg@.data)),
        match result {
            Ok(c) => context.rtc_peer && parsed_candidate(msg.data@) == Ok::<
                IceCandidateView,
                Seq<char>,
            >(c@),
            Err(e) => if context.rtc_peer {
                &&& parsed_candidate(msg.data@) matches Err(why)
                &&& e@ == "RTC unable to parse ICE: "@ + why
            } else {
                e@ == "RTC peer not initialized yet"@
            },
        },
        context.rtc_peer ==> forall|c: IceCandidateView|
            msg@.data == #[trigger] candidate_text(c) ==> (result matches Ok(read) && read@ == c),
{
    if context.rtc_peer {
        ice_candidate_read(parse_candidate(msg.data.as_str()))
    } else {
        Err("RTC peer not initialized yet".to_string())
    }
}

/// Labels the error of reading a candidate.
pub fn ice_candidate_read(read: Result<IceCandidate, String>) -> (result: Result<
    IceCandidate,
    String,
>)
    ensures
        candidate_result(result) == ice_read_outcome(candidate_result(read)),
        match read {
            Ok(c) => result == Ok::<IceCandidate, String>(c),
            Err(why) => {
                &&& result matches Err(e)
                &&& e@ == "RTC unable to parse ICE: "@ + why@
            },
        },
{
    match read {
        Ok(c) => Ok(c),
        Err(e) => Err(labelled("RTC unable to parse ICE: ", e.as_str())),
    }
}

/// The message that is owed to the browser after its candidate was handed to the peer
/// connection: one if that failed.
pub fn ice_candidate_added(outcome: Result<(), String>) -> (reply: Option<MyMsg>)
    ensures
        match outcome {
            Ok(_) => reply is None,
            Err(e) => {
                &&& reply matches Some(m)
                &&& m@ == error_msg("RTC add_ice_candidate: "@ + e@)
                &&& m.op@ == "ERR"@
                &&& m.data@ == "RTC add_ice_candidate: "@ + e@
            },
        },
{
    match outcome {
        Ok(_) => None,
        Err(e) => Some(MyMsg::error(labelled("RTC add_ice_candidate: ", e.as_str()))),
    }
}

/// The error for a message with any other `op`.
pub fn ws_handle_unknown() -> (error: String)
    ensures
        error@ == "Unknown op in received data"@,
{
    "Unknown op in received data".to_string()
}

/// Decides what to do about a candidate that was gathered on this side: the browser
/// is told. What it is told belongs to the unnamed first media.
pub fn rtc_ice(candidate: Option<LocalCandidate>) -> (action: RtcIceAction)
    requires
        candidate matches Some(c) ==> c.has_priority(),
    ensures
        match candidate {
            None => action is Skip,
            Some(c) => match travelling_candidate(c@) {
                None => action is Invalid,
                Some(i) => {
                    &&& action matches RtcIceAction::Send(m)
                    &&& m@ == (MyMsgView { op: "ICE_SERVER"@, data: candidate_text(i) })
                    &&& m.op@ == "ICE_SERVER"@
                    &&& m.data@ == candidate_text(i)
                    &&& i.sdp_mid == Some(""@)
                    &&& i.sdp_mline_index == Some(0u16)
                    &&& i.username_fragment is None
                },
            },
        },
{
    match candidate {
        None => RtcIceAction::Skip,
        Some(c) => match to_travelling(&c) {
            None => RtcIceAction::Invalid,
            Some(i) => RtcIceAction::Send(ice_server_msg(i)),
        },
    }
}

/// Makes the message that tells the browser a candidate.
pub fn ice_server_msg(candidate: IceCandidate) -> (msg: MyMsg)
    ensures
        msg@ == (MyMsgView { op: "ICE_SERVER"@, data: candidate_text(candidate@) }),
        msg.op@ == "ICE_SERVER"@,
        msg.data@ == candidate_text(candidate@),
{
    MyMsg::new("ICE_SERVER", candidate_to_text(candidate))
}

/// Takes a track of the browser, if it is the first one and its audio is coded with
/// Opus. Otherwise hands back the message that is owed to the browser.
pub fn rtc_track(context: &mut ClientContext, mime_type: &str) -> (result: Result<(), MyMsg>)
    ensures
        match track_refusal(*old(context), mime_type@) {
            Some(text) => {
                &&& result matches Err(m)
                &&& m@ == error_msg(text)
                &&& *final(context) == *old(context)
            },
            None => {
                &&& result is Ok
                &&& *final(context) == ClientContext { have_remote_track: true, ..*old(context) }
            },
        },
        match result {
            Ok(_) => {
                &&& !old(context).have_remote_track
                &&& mime_type@ == "audio/opus"@
                &&& *final(context) == ClientContext { have_remote_track: true, ..*old(context) }
            },
            Err(m) => {
                &&& m.op@ == "ERR"@
                &&& old(context).have_remote_track ==> m.data@ == "RTC: already have remote track"@
                &&& !old(context).have_remote_track ==> mime_type@ != "audio/opus"@ && m.data@
                    == "RTC: unsupported codec"@
                &&& *final(context) == *old(context)
            },
        },
        old(context).grows_to(*final(context)),
        old(context).wf() ==> final(context).wf(),
{
    if context.have_remote_track {
        return Err(MyMsg::error("RTC: already have remote track".to_string()));
    }
    if !text_is(&mime_type.to_string(), mime_type_opus()) {
        return Err(MyMsg::error("RTC: unsupported codec".to_string()));
    }
    context.have_remote_track = true;
    Ok(())
}

/// The view of an action tells which one it is and what it carries.
pub proof fn law_ws_action_view(action: WsAction)
    ensures
        action@ is Stop <==> action is Stop,
        action@ is Receive <==> action is Receive,
        action matches WsAction::Reply(m) ==> action@ == WsActionView::Reply(m@),
        action matches WsAction::Negotiate(n) ==> action@ == WsActionView::Negotiate(n@),
        action matches WsAction::AddCandidate(c) ==> action@ == WsActionView::AddCandidate(c@),
{
}

/// The view of a negotiation holds its step and both session descriptions.
pub proof fn law_negotiation_view(n: Negotiation)
    ensures
        n@.stage == n.stage,
        n@.offer == n.offer@,
        n@.answer == n.answer@,
{
}

/// The view of a result tells which one it is and what it carries.
pub proof fn law_negotiation_result_view(result: NegotiationResult)
    ensures
        result matches NegotiationResult::Continue(n) ==> result@
            == NegotiationResultView::Continue(n@),
        result matches NegotiationResult::Failed(m) ==> result@ == NegotiationResultView::Failed(
            m@,
        ),
        result matches NegotiationResult::Finished(m) ==> result@
            == NegotiationResultView::Finished(m@),
{
}

/// The browser's offer reaches the peer connection unabridged: an `INIT` of a client
/// without a peer starts a negotiation, and once its first two steps have succeeded, the
/// step that sets the browser's session description has the data of the message.
pub proof fn law_offer_reaches_the_peer(
    context: ClientContext,
    data: Seq<char>,
    read: Result<IceCandidateView, Seq<char>>,
    first: Seq<char>,
    second: Seq<char>,
)
    requires
        !context.rtc_peer,
    ensures
        ({
            let action = message_action(context, MyMsgView { op: "INIT"@, data }, read);
            &&& action matches WsActionView::Negotiate(start)
            &&& start.stage is NewPeer
            &&& start.offer == data
            &&& start.answer.len() == 0
            &&& negotiation_step(start, Ok(first)) matches NegotiationResultView::Continue(n)
            &&& n.stage is AddTrack
            &&& n.offer == data
            &&& negotiation_step(n, Ok(second)) matches NegotiationResultView::Continue(m)
            &&& m.stage is SetRemote
            &&& m.offer == data
        }),
{
}

/// A step that succeeds leads to the next one with the offer unchanged. The answer is
/// what the fourth step has created, and after the fifth one the browser is sent it.
pub proof fn law_steps_follow_each_other(n: NegotiationView, text: Seq<char>)
    ensures
        ({
            let result = negotiation_step(n, Ok(text));
            match n.stage {
                NegotiationStage::NewPeer => {
                    &&& result matches NegotiationResultView::Continue(m)
                    &&& m.stage is AddTrack
                    &&& m.offer == n.offer
                    &&& m.answer == n.answer
                },
                NegotiationStage::AddTrack => {
                    &&& result matches NegotiationResultView::Continue(m)
                    &&& m.stage is SetRemote
                    &&& m.offer == n.offer
                    &&& m.answer == n.answer
                },
                NegotiationStage::SetRemote => {
                    &&& result matches NegotiationResultView::Continue(m)
                    &&& m.stage is CreateAnswer
                    &&& m.offer == n.offer
                    &&& m.answer == n.answer
                },
                NegotiationStage::CreateAnswer => {
                    &&& result matches NegotiationResultView::Continue(m)
                    &&& m.stage is SetLocal
                    &&& m.offer == n.offer
                    &&& m.answer == text
                },
                NegotiationStage::SetLocal => {
                    &&& result matches NegotiationResultView::Finished(m)
                    &&& m.op == "INIT_RESP"@
                    &&& m.data == n.answer
                },
            }
        }),
{
}

/// A step that fails ends the negotiation with its error, under the name of the step.
pub proof fn law_failed_step_is_named(n: NegotiationView, error: Seq<char>)
    ensures
        negotiation_step(n, Err(error)) == NegotiationResultView::Failed(
            MyMsgView {
                op: "ERR"@,
                data: (match n.stage {
                    NegotiationStage::NewPeer => "RTC new_peer_connection: "@,
                    NegotiationStage::AddTrack => "RTC add_track: "@,
                    NegotiationStage::SetRemote => "RTC set_remote_description: "@,
                    NegotiationStage::CreateAnswer => "RTC create_answer: "@,
                    NegotiationStage::SetLocal => "RTC set_local_description: "@,
                }) + error,
            },
        ),
{
}

/// A finished negotiation leaves the peer connection and the track to the browser, and
/// nothing else; one that goes on or has failed leaves nothing.
pub proof fn law_only_a_finished_negotiation_leaves_a_peer(
    context: ClientContext,
    result: NegotiationResultView,
)
    ensures
        context_after(context, result).rtc_peer <==> context.rtc_peer || result is Finished,
        context_after(context, result).local_track <==> context.local_track || result is Finished,
        context_after(context, result).have_remote_track == context.have_remote_track,
        context_after(context, result).openai_connected == context.openai_connected,
        context_after(context, result).openai_tx == context.openai_tx,
{
}

/// Whatever an `ICE_CLIENT` message reads as is handed over as it is, once there is a
/// peer connection; what cannot be read is answered with the reason.
pub proof fn law_candidates_are_handed_over(
    context: ClientContext,
    data: Seq<char>,
    candidate: IceCandidateView,
    error: Seq<char>,
)
    requires
        context.rtc_peer,
    ensures
        message_action(context, MyMsgView { op: "ICE_CLIENT"@, data }, Ok(candidate))
            == WsActionView::AddCandidate(candidate),
        message_action(context, MyMsgView { op: "ICE_CLIENT"@, data }, Err(error))
            == WsActionView::Reply(
            MyMsgView { op: "ERR"@, data: "RTC unable to parse ICE: "@ + error },
        ),
{
    reveal_strlit("INIT");
    reveal_strlit("ICE_CLIENT");
    assert("INIT"@.len() != "ICE_CLIENT"@.len());
}

/// A message with any other `op` is answered with an error, whatever it carries.
pub proof fn law_other_messages_are_refused(
    context: ClientContext,
    msg: MyMsgView,
    read: Result<IceCandidateView, Seq<char>>,
)
    requires
        msg.op != "INIT"@,
        msg.op != "ICE_CLIENT"@,
    ensures
        message_action(context, msg, read) == WsActionView::Reply(
            MyMsgView { op: "ERR"@, data: "Unknown op in received data"@ },
        ),
{
}

/// The conversation ends exactly with the web socket. A frame that is no text has no
/// effect, a text that is no message is answered, and a message is looked at with what
/// its own data reads as.
pub proof fn law_conversation_ends_with_the_web_socket(context: ClientContext, event: WsEvent)
    ensures
        ws_action(context, event) is Stop <==> event is Closed || event is Failed,
        event is NonText ==> ws_action(context, event) is Receive,
        event is Undecodable ==> ws_action(context, event) == WsActionView::Reply(
            MyMsgView { op: "ERR"@, data: "Unable to deserialize received data"@ },
        ),
        event matches WsEvent::Received(msg) ==> ws_action(context, event) == message_action(
            context,
            MyMsgView { op: msg.op@, data: msg.data@ },
            parsed_candidate(msg.data@),
        ),
{
}

/// A track is taken exactly if it is the first one and its audio is coded with Opus; the
/// refusal says which of the two fails, the first one first.
pub proof fn law_first_opus_track_is_taken(context: ClientContext, mime_type: Seq<char>)
    ensures
        track_refusal(context, mime_type) is None <==> !context.have_remote_track && mime_type
            == "audio/opus"@,
        context.have_remote_track ==> track_refusal(context, mime_type) == Some(
            "RTC: already have remote track"@,
        ),
        !context.have_remote_track && mime_type != "audio/opus"@ ==> track_refusal(
            context,
            mime_type,
        ) == Some("RTC: unsupported codec"@),
{
}

/// Five steps that succeed finish a negotiation, and the browser gets the answer that
/// the fourth one created.
pub proof fn law_negotiation_gives_the_answer(
    offer: Seq<char>,
    outcomes: Seq<Result<Seq<char>, Seq<char>>>,
)
    requires
        outcomes.len() == 5,
        forall|i: int| 0 <= i < 5 ==> #[trigger] outcomes[i] is Ok,
    ensures
        negotiated(negotiation_start(offer), outcomes) == NegotiationResultView::Finished(
            MyMsgView { op: "INIT_RESP"@, data: outcomes[3]->Ok_0 },
        ),
{
    reveal_with_fuel(negotiated, 6);
    assert(outcomes.skip(1)[0] == outcomes[1]);
    assert(outcomes.skip(1).skip(1)[0] == outcomes[2]);
    assert(outcomes.skip(1).skip(1).skip(1)[0] == outcomes[3]);
    assert(outcomes.skip(1).skip(1).skip(1).skip(1)[0] == outcomes[4]);
}

/// The steps of a negotiation in their order.
pub open spec fn stages() -> Seq<NegotiationStage> {
    seq![
        NegotiationStage::NewPeer,
        NegotiationStage::AddTrack,
        NegotiationStage::SetRemote,
        NegotiationStage::CreateAnswer,
        NegotiationStage::SetLocal,
    ]
}

/// The first step that fails ends a negotiation, its error is reported under the
/// label of the step, and the client is as it was before: it can try again.
pub proof fn law_failed_negotiation_leaves_nothing(
    context: ClientContext,
    offer: Seq<char>,
    outcomes: Seq<Result<Seq<char>, Seq<char>>>,
    k: int,
)
    requires
        0 <= k < 5,
        k < outcomes.len(),
        forall|i: int| 0 <= i < k ==> #[trigger] outcomes[i] is Ok,
        outcomes[k] is Err,
    ensures
        negotiated(negotiation_start(offer), outcomes) == NegotiationResultView::Failed(
            error_msg(stage_label(stages()[k]) + outcomes[k]->Err_0),
        ),
        context_after(context, negotiated(negotiation_start(offer), outcomes)) == context,
{
    reveal_with_fuel(negotiated, 6);
    if k > 0 {
        assert(outcomes.skip(1)[0] == outcomes[1]);
    }
    if k > 1 {
        assert(outcomes.skip(1).skip(1)[0] == outcomes[2]);
    }
    if k > 2 {
        assert(outcomes.skip(1).skip(1).skip(1)[0] == outcomes[3]);
    }
    if k > 3 {
        assert(outcomes.skip(1).skip(1).skip(1).skip(1)[0] == outcomes[4]);
    }
}

/// Once a negotiation has finished, every further `INIT` is refused, whatever else
/// comes about in between.
pub proof fn law_one_peer_per_client(
    context: ClientContext,
    finished: NegotiationResultView,
    later: ClientContext,
    offer: Seq<char>,
    read: Result<IceCandidateView, Seq<char>>,
)
    requires
        finished is Finished,
        context_after(context, finished).grows_to(later),
    ensures
        message_action(later, MyMsgView { op: "INIT"@, data: offer }, read) == WsActionView::Reply(
            error_msg("RTC peer already initialized"@),
        ),
{
}

/// A message is never left without effect: it starts a negotiation, hands over a
/// candidate, or is refused, and what is refused is answered with an error.
pub proof fn law_refused_messages_are_answered(
    context: ClientContext,
    msg: MyMsgView,
    read: Result<IceCandidateView, Seq<char>>,
)
    ensures
        match message_action(context, msg, read) {
            WsActionView::Negotiate(_) => msg.op == "INIT"@ && !context.rtc_peer,
            WsActionView::AddCandidate(_) => msg.op == "ICE_CLIENT"@ && context.rtc_peer,
            WsActionView::Reply(m) => m.op == "ERR"@,
            _ => false,
        },
{
}

/// Before a negotiation has finished, every candidate of the browser is refused.
pub proof fn law_no_candidate_without_peer(
    context: ClientContext,
    data: Seq<char>,
    read: Result<IceCandidateView, Seq<char>>,
)
    requires
        !context.rtc_peer,
    ensures
        message_action(context, MyMsgView { op: "ICE_CLIENT"@, data }, read)
            == WsActionView::Reply(error_msg("RTC peer not initialized yet"@)),
{
    reveal_strlit("INIT");
    reveal_strlit("ICE_CLIENT");
    assert("INIT"@.len() != "ICE_CLIENT"@.len());
}

/// Once a track was taken, every further one is refused, whatever else comes about in
/// between.
pub proof fn law_one_track_per_client(
    context: ClientContext,
    mime_type: Seq<char>,
    later: ClientContext,
    other: Seq<char>,
)
    requires
        track_refusal(context, mime_type) is None,
        (ClientContext { have_remote_track: true, ..context }).grows_to(later),
    ensures
        track_refusal(later, other) == Some("RTC: already have remote track"@),
{
}

} // verus!
