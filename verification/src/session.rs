//! The conversation with the service: what to do about each thing that happens on its
//! web socket.

use crate::base64_text::base64_text;
use crate::context::ClientContext;
use crate::events::{session_update_event, session_update_text};
use crate::frames::{
    delta_samples, frame_views, frames_of, law_cutting_makes_no_difference,
    law_delta_is_read_little_endian, law_frames_keep_every_sample, openai_handle_response, rest_of,
    DeltaError, SEND_FRAME_SIZE,
};
use crate::messages::{error_msg, labelled, text_is, MyMsg, MyMsgView, OpenApiResp};
use vstd::prelude::*;

verus! {

/// A session with the service.
#[derive(Debug, PartialEq, Eq)]
pub struct OpenAiSession {
    /// The service has accepted the session.
    pub got_session: bool,
    /// Samples of the service's speech that do not fill a frame yet.
    pub sample_buf: Vec<i16>,
}

/// What has happened.
#[derive(Debug, PartialEq, Eq)]
pub enum OpenAiEvent {
    /// The web socket could not be opened; the text of the error.
    ConnectFailed(String),
    /// The web socket is open; the instructions for the session.
    Connected(String),
    /// The web socket was closed.
    Closed,
    /// Reading failed.
    ReadFailed,
    /// A frame came that is no text.
    NonText,
    /// A text came that is no event.
    Undecodable,
    /// An event came.
    Response(OpenApiResp),
}

/// What to do next. Where nothing else is said, the service is waited for afterwards.
#[derive(Debug, PartialEq, Eq)]
pub enum OpenAiAction {
    /// Leave the conversation.
    Stop,
    /// Send the message to the browser and leave the conversation.
    Abort(MyMsg),
    /// Send the text to the service.
    Send(String),
    /// Wait for the service.
    Read,
    /// Start to pass the user's speech to the service and the service's speech to the
    /// browser.
    StartSenders,
    /// Encode the frames one after the other and pass them on.
    Encode(Vec<Vec<i16>>),
    /// Nothing: the delta was refused.
    Refused(DeltaError),
}

/// What an `OpenAiSession` holds.
pub struct OpenAiSessionView {
    pub got_session: bool,
    pub sample_buf: Seq<i16>,
}

impl View for OpenAiSession {
    type V = OpenAiSessionView;

    open spec fn view(&self) -> OpenAiSessionView {
        OpenAiSessionView { got_session: self.got_session, sample_buf: self.sample_buf@ }
    }
}

/// What an `OpenAiEvent` holds.
pub enum OpenAiEventView {
    ConnectFailed(Seq<char>),
    Connected(Seq<char>),
    Closed,
    ReadFailed,
    NonText,
    Undecodable,
    Response { typ: Seq<char>, delta: Option<Seq<char>> },
}

impl View for OpenAiEvent {
    type V = OpenAiEventView;

    open spec fn view(&self) -> OpenAiEventView {
        match *self {
            OpenAiEvent::ConnectFailed(e) => OpenAiEventView::ConnectFailed(e@),
            OpenAiEvent::Connected(i) => OpenAiEventView::Connected(i@),
            OpenAiEvent::Closed => OpenAiEventView::Closed,
            OpenAiEvent::ReadFailed => OpenAiEventView::ReadFailed,
            OpenAiEvent::NonText => OpenAiEventView::NonText,
            OpenAiEvent::Undecodable => OpenAiEventView::Undecodable,
            OpenAiEvent::Response(resp) => OpenAiEventView::Response {
                typ: resp.typ@,
                delta: match resp.delta {
                    None => None,
                    Some(d) => Some(d@),
                },
            },
        }
    }
}

/// What an `OpenAiAction` holds.
pub enum OpenAiActionView {
    Stop,
    Abort(MyMsgView),
    Send(Seq<char>),
    Read,
    StartSenders,
    Encode(Seq<Seq<i16>>),
    Refused(DeltaError),
}

impl View for OpenAiAction {
    type V = OpenAiActionView;

    open spec fn view(&self) -> OpenAiActionView {
        match *self {
            OpenAiAction::Stop => OpenAiActionView::Stop,
            OpenAiAction::Abort(m) => OpenAiActionView::Abort(m@),
            OpenAiAction::Send(t) => OpenAiActionView::Send(t@),
            OpenAiAction::Read => OpenAiActionView::Read,
            OpenAiAction::StartSenders => OpenAiActionView::StartSenders,
            OpenAiAction::Encode(frames) => OpenAiActionView::Encode(frame_views(frames@)),
            OpenAiAction::Refused(e) => OpenAiActionView::Refused(e),
        }
    }
}

/// The session, the client's context and the action after an event.
pub struct OpenAiStep {
    pub session: OpenAiSessionView,
    pub context: ClientContext,
    pub action: OpenAiActionView,
}

/// What an event of the service leads to.
pub open spec fn response_step(
    session: OpenAiSessionView,
    context: ClientContext,
    typ: Seq<char>,
    delta: Option<Seq<char>>,
) -> OpenAiStep {
    if typ == "session.updated"@ && !session.got_session {
        OpenAiStep {
            session: OpenAiSessionView { got_session: true, ..session },
            context: ClientContext { openai_connected: true, ..context },
            action: OpenAiActionView::StartSenders,
        }
    } else if typ == "response.audio.delta"@ && delta is Some {
        match delta_samples(delta->0) {
            Ok(samples) => OpenAiStep {
                session: OpenAiSessionView {
                    sample_buf: rest_of(session.sample_buf + samples),
                    ..session
                },
                context,
                action: OpenAiActionView::Encode(frames_of(session.sample_buf + samples)),
            },
            Err(e) => OpenAiStep { session, context, action: OpenAiActionView::Refused(e) },
        }
    } else {
        OpenAiStep { session, context, action: OpenAiActionView::Read }
    }
}

/// What anything that happens leads to.
pub open spec fn openai_step(
    session: OpenAiSessionView,
    context: ClientContext,
    event: OpenAiEventView,
) -> OpenAiStep {
    match event {
        OpenAiEventView::ConnectFailed(e) => OpenAiStep {
            session,
            context,
            action: OpenAiActionView::Abort(error_msg("openapi connect: "@ + e)),
        },
        OpenAiEventView::Connected(instructions) => OpenAiStep {
            session,
            context: ClientContext { openai_tx: true, ..context },
            action: OpenAiActionView::Send(session_update_text(instructions)),
        },
        OpenAiEventView::Closed => OpenAiStep { session, context, action: OpenAiActionView::Stop },
        OpenAiEventView::ReadFailed => OpenAiStep {
            session,
            context,
            action: OpenAiActionView::Stop,
        },
        OpenAiEventView::NonText => OpenAiStep { session, context, action: OpenAiActionView::Read },
        OpenAiEventView::Undecodable => OpenAiStep {
            session,
            context,
            action: OpenAiActionView::Read,
        },
        OpenAiEventView::Response { typ, delta } => response_step(session, context, typ, delta),
    }
}

/// The session and the client's context after a number of events.
pub open spec fn openai_run(
    session: OpenAiSessionView,
    context: ClientContext,
    events: Seq<OpenAiEventView>,
) -> (OpenAiSessionView, ClientContext)
    decreases events.len(),
{
    if events.len() == 0 {
        (session, context)
    } else {
        let (s, c) = openai_run(session, context, events.drop_last());
        let step = openai_step(s, c, events.last());
        (step.session, step.context)
    }
}

/// The action that the `k`-th of a number of events leads to.
pub open spec fn openai_action(
    session: OpenAiSessionView,
    context: ClientContext,
    events: Seq<OpenAiEventView>,
    k: int,
) -> OpenAiActionView {
    let (s, c) = openai_run(session, context, events.take(k));
    openai_step(s, c, events[k]).action
}

/// A session in which nothing has happened.
pub open spec fn new_session() -> OpenAiSessionView {
    OpenAiSessionView { got_session: false, sample_buf: seq![] }
}

impl OpenAiSession {
    /// A session in which nothing has happened.
    pub fn new() -> (session: OpenAiSession)
        ensures
            session@ == new_session(),
            !session.got_session,
            session.sample_buf@.len() == 0,
    {
        let session = OpenAiSession { got_session: false, sample_buf: Vec::new() };
        assert(session@.sample_buf =~= seq![]);
        session
    }
}

/// Decides what to do about something that has happened on the service's web socket.
pub fn openai_handle(
    session: &mut OpenAiSession,
    context: &mut ClientContext,
    event: OpenAiEvent,
) -> (action: OpenAiAction)
    ensures
        ({
            let step = openai_step(old(session)@, *old(context), event@);
            &&& final(session)@ == step.session
            &&& *final(context) == step.context
            &&& action@ == step.action
        }),
        match event {
            OpenAiEvent::ConnectFailed(e) => {
                &&& action matches OpenAiAction::Abort(m)
                &&& m.op@ == "ERR"@
                &&& m.data@ == "openapi connect: "@ + e@
                &&& final(session).got_session == old(session).got_session
                &&& final(session).sample_buf@ == old(session).sample_buf@
                &&& *final(context) == *old(context)
            },
            OpenAiEvent::Connected(instructions) => {
                &&& action matches OpenAiAction::Send(text)
                &&& text@ == session_update_text(instructions@)
                &&& final(session).got_session == old(session).got_session
                &&& final(session).sample_buf@ == old(session).sample_buf@
                &&& *final(context) == ClientContext { openai_tx: true, ..*old(context) }
            },
            OpenAiEvent::Closed => {
                &&& action is Stop
                &&& final(session).got_session == old(session).got_session
                &&& final(session).sample_buf@ == old(session).sample_buf@
                &&& *final(context) == *old(context)
            },
            OpenAiEvent::ReadFailed => {
                &&& action is Stop
                &&& final(session).got_session == old(session).got_session
                &&& final(session).sample_buf@ == old(session).sample_buf@
                &&& *final(context) == *old(context)
            },
            OpenAiEvent::NonText => {
                &&& action is Read
                &&& final(session).got_session == old(session).got_session
                &&& final(session).sample_buf@ == old(session).sample_buf@
                &&& *final(context) == *old(context)
            },
            OpenAiEvent::Undecodable => {
                &&& action is Read
                &&& final(session).got_session == old(session).got_session
                &&& final(session).sample_buf@ == old(session).sample_buf@
                &&& *final(context) == *old(context)
            },
            OpenAiEvent::Response(resp) => if resp.typ@ == "session.updated"@ {
                &&& action is StartSenders <==> !old(session).got_session
                &&& action is Read <==> old(session).got_session
                &&& final(session).got_session
                &&& final(session).sample_buf@ == old(session).sample_buf@
                &&& *final(context) == ClientContext {
                    openai_connected: old(context).openai_connected || !old(session).got_session,
                    ..*old(context)
                }
            } else {
                &&& final(session).got_session == old(session).got_session
                &&& *final(context) == *old(context)
                &&& (resp.typ@ != "response.audio.delta"@ || resp.delta is None) ==> action is Read
                    && final(session).sample_buf@ == old(session).sample_buf@
                &&& resp.typ@ == "response.audio.delta"@ ==> (resp.delta matches Some(delta) ==> {
                    &&& action is Encode || action is Refused
                    &&& delta_samples(delta@) matches Err(e) ==> action == OpenAiAction::Refused(e)
                        && final(session).sample_buf@ == old(session).sample_buf@
                    &&& delta_samples(delta@) matches Ok(samples) ==> {
                        &&& action matches OpenAiAction::Encode(frames)
                        &&& frames@.map_values(|f: Vec<i16>| f@).flatten()
                            + final(session).sample_buf@ == old(session).sample_buf@ + samples
                        &&& forall|k: int|
                            0 <= k < frames@.len() ==> (#[trigger] frames@[k])@.len() == 480
                        &&& final(session).sample_buf@.len() < 480
                    }
                })
            },
        },
        old(context).grows_to(*final(context)),
        old(context).wf() && old(context).openai_tx ==> final(context).wf(),
{
    match event {
        OpenAiEvent::ConnectFailed(e) => OpenAiAction::Abort(
            MyMsg::error(labelled("openapi connect: ", e.as_str())),
        ),
        OpenAiEvent::Connected(instructions) => {
            context.openai_tx = true;
            OpenAiAction::Send(session_update_event(instructions.as_str()))
        },
        OpenAiEvent::Closed => OpenAiAction::Stop,
        OpenAiEvent::ReadFailed => OpenAiAction::Stop,
        OpenAiEvent::NonText => OpenAiAction::Read,
        OpenAiEvent::Undecodable => OpenAiAction::Read,
        OpenAiEvent::Response(resp) => {
            proof {
                reveal_strlit("session.updated");
                reveal_strlit("response.audio.delta");
                assert("session.updated"@.len() != "response.audio.delta"@.len());
            }
            if text_is(&resp.typ, "session.updated") {
                if !session.got_session {
                    session.got_session = true;
                    context.openai_connected = true;
                    OpenAiAction::StartSenders
                } else {
                    OpenAiAction::Read
                }
            } else if text_is(&resp.typ, "response.audio.delta") {
                match resp.delta {
                    None => OpenAiAction::Read,
                    Some(delta) => match openai_handle_response(
                        &mut session.sample_buf,
                        delta.as_str(),
                    ) {
                        Ok(frames) => {
                            proof {
                                let all = old(session).sample_buf@ + delta_samples(delta@)->Ok_0;
                                law_frames_keep_every_sample(all);
                                assert(frames@.map_values(|f: Vec<i16>| f@) =~= frames_of(all));
                                assert forall|k: int| 0 <= k < frames@.len() implies (
                                #[trigger] frames@[k])@.len() == 480 by {
                                    assert(frames_of(all)[k] == frames@[k]@);
                                }
                            }
                            OpenAiAction::Encode(frames)
                        },
                        Err(e) => OpenAiAction::Refused(e),
                    },
                }
            } else {
                OpenAiAction::Read
            }
        },
    }
}

/// The view of a session holds its flag and the samples that are held back.
pub proof fn law_session_view(session: OpenAiSession)
    ensures
        session@.got_session == session.got_session,
        session@.sample_buf == session.sample_buf@,
{
}

/// The view of what has happened tells which thing it is and what it carries.
pub proof fn law_openai_event_view(event: OpenAiEvent)
    ensures
        event matches OpenAiEvent::ConnectFailed(e) ==> event@ == OpenAiEventView::ConnectFailed(
            e@,
        ),
        event matches OpenAiEvent::Connected(i) ==> event@ == OpenAiEventView::Connected(i@),
        event is Closed ==> event@ is Closed,
        event is ReadFailed ==> event@ is ReadFailed,
        event is NonText ==> event@ is NonText,
        event is Undecodable ==> event@ is Undecodable,
        event matches OpenAiEvent::Response(resp) ==> {
            &&& event@ matches OpenAiEventView::Response { typ, delta }
            &&& typ == resp.typ@
            &&& delta is Some <==> resp.delta is Some
            &&& resp.delta matches Some(d) ==> delta == Some(d@)
        },
{
}

/// The view of an action tells which one it is and what it carries.
pub proof fn law_openai_action_view(action: OpenAiAction)
    ensures
        action@ is Stop <==> action is Stop,
        action@ is Read <==> action is Read,
        action@ is StartSenders <==> action is StartSenders,
        action matches OpenAiAction::Abort(m) ==> action@ == OpenAiActionView::Abort(m@),
        action matches OpenAiAction::Send(text) ==> action@ == OpenAiActionView::Send(text@),
        action matches OpenAiAction::Refused(e) ==> action@ == OpenAiActionView::Refused(e),
        action matches OpenAiAction::Encode(frames) ==> action@ == OpenAiActionView::Encode(
            frames@.map_values(|f: Vec<i16>| f@),
        ),
{
    if let OpenAiAction::Encode(frames) = action {
        assert(frame_views(frames@) =~= frames@.map_values(|f: Vec<i16>| f@));
    }
}

/// Whenever the web socket is opened, in whatever state the session and the client are,
/// the service is sent the session's settings with these instructions, unabridged.
pub proof fn law_opening_sends_the_instructions(
    session: OpenAiSessionView,
    context: ClientContext,
    instructions: Seq<char>,
)
    ensures
        ({
            let step = openai_step(session, context, OpenAiEventView::Connected(instructions));
            &&& step.action == OpenAiActionView::Send(session_update_text(instructions))
            &&& step.session == session
            &&& step.context.openai_tx
            &&& step.context.rtc_peer == context.rtc_peer
            &&& step.context.local_track == context.local_track
            &&& step.context.have_remote_track == context.have_remote_track
            &&& step.context.openai_connected == context.openai_connected
        }),
{
}

/// In any conversation, the service is sent something by an event exactly if the event
/// opens the web socket, and it is then the session's settings with these instructions.
pub proof fn law_kth_opening_sends_the_instructions(
    session: OpenAiSessionView,
    context: ClientContext,
    events: Seq<OpenAiEventView>,
    k: int,
)
    requires
        0 <= k < events.len(),
    ensures
        openai_action(session, context, events, k) is Send <==> events[k] is Connected,
        events[k] matches OpenAiEventView::Connected(instructions) ==> openai_action(
            session,
            context,
            events,
            k,
        ) == OpenAiActionView::Send(session_update_text(instructions)),
{
}

/// A web socket that could not be opened is reported to the browser with the reason and
/// ends the conversation; nothing else ends it but the end of the web socket.
pub proof fn law_conversation_ends(
    session: OpenAiSessionView,
    context: ClientContext,
    event: OpenAiEventView,
)
    ensures
        openai_step(session, context, event).action is Stop <==> event is Closed || event
            is ReadFailed,
        openai_step(session, context, event).action is Abort <==> event is ConnectFailed,
        event matches OpenAiEventView::ConnectFailed(e) ==> openai_step(session, context, event)
            == (OpenAiStep {
            session,
            context,
            action: OpenAiActionView::Abort(
                MyMsgView { op: "ERR"@, data: "openapi connect: "@ + e },
            ),
        }),
{
}

/// A report of the session, whatever else it carries, starts the senders and connects
/// the client if it is the first one, and has no effect otherwise. Nothing else starts
/// the senders.
pub proof fn law_report_of_the_session(
    session: OpenAiSessionView,
    context: ClientContext,
    event: OpenAiEventView,
    delta: Option<Seq<char>>,
)
    ensures
        ({
            let step = openai_step(
                session,
                context,
                OpenAiEventView::Response { typ: "session.updated"@, delta },
            );
            &&& step.session.got_session
            &&& step.session.sample_buf == session.sample_buf
            &&& !session.got_session ==> step.action is StartSenders
                && step.context.openai_connected
            &&& session.got_session ==> step.action is Read && step.context == context
            &&& step.context.rtc_peer == context.rtc_peer
            &&& step.context.local_track == context.local_track
            &&& step.context.have_remote_track == context.have_remote_track
            &&& step.context.openai_tx == context.openai_tx
        }),
        openai_step(session, context, event).action is StartSenders ==> (event matches
            OpenAiEventView::Response { typ, .. } && typ == "session.updated"@),
{
    reveal_strlit("session.updated");
    reveal_strlit("response.audio.delta");
    assert("session.updated"@.len() != "response.audio.delta"@.len());
}

/// A delta with samples lengthens the speech by just these samples: the frames to encode
/// and what is held back afterwards are what was held back before, followed by what the
/// bytes give, the low byte first. Every frame has 480 samples, and fewer are held back.
pub proof fn law_delta_lengthens_the_speech(
    session: OpenAiSessionView,
    context: ClientContext,
    bytes: Seq<u8>,
    i: int,
)
    requires
        bytes.len() > 0,
        bytes.len() % 2 == 0,
        0 <= i < bytes.len() / 2,
    ensures
        ({
            let step = openai_step(
                session,
                context,
                OpenAiEventView::Response {
                    typ: "response.audio.delta"@,
                    delta: Some(base64_text(bytes)),
                },
            );
            let held = session.sample_buf;
            &&& step.context == context
            &&& step.session.got_session == session.got_session
            &&& step.session.sample_buf.len() < 480
            &&& step.action matches OpenAiActionView::Encode(frames)
            &&& forall|k: int| 0 <= k < frames.len() ==> (#[trigger] frames[k]).len() == 480
            &&& ({
                let all = frames.flatten() + step.session.sample_buf;
                &&& all.len() == held.len() + bytes.len() / 2
                &&& all.take(held.len() as int) == held
                &&& all[held.len() + i] as int == bytes[2 * i] as int + 256 * bytes[2 * i
                    + 1] as int - (if bytes[2 * i + 1] < 128 {
                    0int
                } else {
                    65536int
                })
            })
        }),
{
    reveal_strlit("session.updated");
    reveal_strlit("response.audio.delta");
    assert("session.updated"@.len() != "response.audio.delta"@.len());
    law_delta_is_read_little_endian(bytes, i);
    let samples = delta_samples(base64_text(bytes))->Ok_0;
    let all = session.sample_buf + samples;
    law_frames_keep_every_sample(all);
    assert(all.take(session.sample_buf.len() as int) =~= session.sample_buf);
    assert(all[session.sample_buf.len() + i] == samples[i]);
}

/// A delta without bytes or with an odd number of them, and one that is not base64, are
/// refused with the reason and change nothing.
pub proof fn law_bad_delta_changes_nothing(
    session: OpenAiSessionView,
    context: ClientContext,
    text: Seq<char>,
    bytes: Seq<u8>,
)
    ensures
        bytes.len() == 0 || bytes.len() % 2 != 0 ==> openai_step(
            session,
            context,
            OpenAiEventView::Response {
                typ: "response.audio.delta"@,
                delta: Some(base64_text(bytes)),
            },
        ) == (OpenAiStep {
            session,
            context,
            action: OpenAiActionView::Refused(DeltaError::BadLength),
        }),
        (forall|b: Seq<u8>| text != #[trigger] base64_text(b)) ==> openai_step(
            session,
            context,
            OpenAiEventView::Response { typ: "response.audio.delta"@, delta: Some(text) },
        ) == (OpenAiStep {
            session,
            context,
            action: OpenAiActionView::Refused(DeltaError::NotBase64),
        }),
{
    reveal_strlit("session.updated");
    reveal_strlit("response.audio.delta");
    assert("session.updated"@.len() != "response.audio.delta"@.len());
    law_delta_is_read_little_endian(bytes, 0);
}

/// A frame that is no text, a text that is no event, an event of another type and a
/// delta event without a delta have no effect.
pub proof fn law_other_events_have_no_effect(
    session: OpenAiSessionView,
    context: ClientContext,
    typ: Seq<char>,
    delta: Option<Seq<char>>,
)
    requires
        typ != "session.updated"@,
        typ != "response.audio.delta"@ || delta is None,
    ensures
        openai_step(session, context, OpenAiEventView::Response { typ, delta }) == (OpenAiStep {
            session,
            context,
            action: OpenAiActionView::Read,
        }),
        openai_step(session, context, OpenAiEventView::NonText) == (OpenAiStep {
            session,
            context,
            action: OpenAiActionView::Read,
        }),
        openai_step(session, context, OpenAiEventView::Undecodable) == (OpenAiStep {
            session,
            context,
            action: OpenAiActionView::Read,
        }),
{
}

proof fn lemma_run_keeps_session(
    session: OpenAiSessionView,
    context: ClientContext,
    events: Seq<OpenAiEventView>,
    from: int,
    to: int,
)
    requires
        0 <= from <= to <= events.len(),
        openai_run(session, context, events.take(from)).0.got_session,
    ensures
        openai_run(session, context, events.take(to)).0.got_session,
    decreases to - from,
{
    if from < to {
        lemma_run_keeps_session(session, context, events, from, to - 1);
        assert(events.take(to).drop_last() =~= events.take(to - 1));
    }
}

/// However often the service reports the session, the senders are started once at
/// most.
pub proof fn law_senders_start_once(
    session: OpenAiSessionView,
    context: ClientContext,
    events: Seq<OpenAiEventView>,
    first: int,
    second: int,
)
    requires
        0 <= first < second < events.len(),
        openai_action(session, context, events, first) is StartSenders,
    ensures
        !(openai_action(session, context, events, second) is StartSenders),
{
    assert(events.take(first + 1).drop_last() =~= events.take(first));
    assert(events.take(first + 1).last() == events[first]);
    lemma_run_keeps_session(session, context, events, first + 1, second);
}

/// The service reports the session.
pub open spec fn is_report(event: OpenAiEventView) -> bool {
    event matches OpenAiEventView::Response { typ, delta } && typ == "session.updated"@
}

/// One of the events is a report of the session.
pub open spec fn has_report(events: Seq<OpenAiEventView>) -> bool {
    exists|k: int| 0 <= k < events.len() && is_report(#[trigger] events[k])
}

proof fn lemma_run_knows_report(context: ClientContext, events: Seq<OpenAiEventView>)
    requires
        !context.openai_connected,
    ensures
        openai_run(new_session(), context, events).0.got_session == has_report(events),
        openai_run(new_session(), context, events).1.openai_connected == has_report(events),
    decreases events.len(),
{
    if events.len() > 0 {
        let before = events.drop_last();
        lemma_run_knows_report(context, before);
        if has_report(before) {
            let k = choose|k: int| 0 <= k < before.len() && is_report(#[trigger] before[k]);
            assert(is_report(events[k]));
        }
        if is_report(events.last()) {
            assert(is_report(events[events.len() - 1]));
        }
        if has_report(events) && !is_report(events.last()) {
            let k = choose|k: int| 0 <= k < events.len() && is_report(#[trigger] events[k]);
            assert(is_report(before[k]));
        }
    }
}

/// The first of the events up to the `k`-th that is a report of the session.
proof fn lemma_first_report(events: Seq<OpenAiEventView>, k: int) -> (first: int)
    requires
        0 <= k < events.len(),
        is_report(events[k]),
    ensures
        0 <= first <= k,
        is_report(events[first]),
        !has_report(events.take(first)),
    decreases k,
{
    if has_report(events.take(k)) {
        let j = choose|j: int|
            0 <= j < events.take(k).len() && is_report(#[trigger] events.take(k)[j]);
        assert(events.take(k)[j] == events[j]);
        lemma_first_report(events, j)
    } else {
        k
    }
}

/// In a conversation from its beginning, the first report of the session starts the
/// senders and connects the client, whatever comes before it, and nothing else does:
/// the `k`-th event starts them exactly if it is a report and none came before it. So
/// they are started, and the client is connected, exactly if a report has come.
pub proof fn law_first_report_starts_senders(
    context: ClientContext,
    events: Seq<OpenAiEventView>,
)
    requires
        !context.openai_connected,
    ensures
        forall|k: int|
            0 <= k < events.len() ==> (#[trigger] openai_action(
                new_session(),
                context,
                events,
                k,
            ) is StartSenders <==> is_report(events[k]) && !has_report(events.take(k))),
        (exists|k: int|
            0 <= k < events.len() && #[trigger] openai_action(
                new_session(),
                context,
                events,
                k,
            ) is StartSenders) <==> has_report(events),
        openai_run(new_session(), context, events).1.openai_connected <==> has_report(events),
{
    lemma_run_knows_report(context, events);
    assert forall|k: int| 0 <= k < events.len() implies (#[trigger] openai_action(
        new_session(),
        context,
        events,
        k,
    ) is StartSenders <==> is_report(events[k]) && !has_report(events.take(k))) by {
        lemma_run_knows_report(context, events.take(k));
    }
    if has_report(events) {
        let k = choose|k: int| 0 <= k < events.len() && is_report(#[trigger] events[k]);
        let first = lemma_first_report(events, k);
        assert(openai_action(new_session(), context, events, first) is StartSenders);
    }
}

/// The senders are started only when the service reports the session.
pub proof fn law_only_a_report_starts_senders(
    session: OpenAiSessionView,
    context: ClientContext,
    event: OpenAiEventView,
)
    requires
        openai_step(session, context, event).action is StartSenders,
    ensures
        is_report(event),
{
}

/// Everything that is there for a client stays, whatever happens in the conversation.
pub proof fn law_context_only_grows(
    session: OpenAiSessionView,
    context: ClientContext,
    events: Seq<OpenAiEventView>,
)
    ensures
        context.grows_to(openai_run(session, context, events).1),
    decreases events.len(),
{
    if events.len() > 0 {
        law_context_only_grows(session, context, events.drop_last());
    }
}

/// A conversation that begins with an open web socket keeps the client's context
/// sound, whatever happens in it.
pub proof fn law_context_stays_sound(
    session: OpenAiSessionView,
    context: ClientContext,
    events: Seq<OpenAiEventView>,
)
    requires
        context.wf(),
        events.len() > 0 ==> events[0] is Connected,
    ensures
        openai_run(session, context, events).1.wf(),
        events.len() > 0 ==> openai_run(session, context, events).1.openai_tx,
    decreases events.len(),
{
    if events.len() > 0 {
        let before = events.drop_last();
        law_context_stays_sound(session, context, before);
        if before.len() > 0 {
            assert(before[0] == events[0]);
        }
    }
}

/// The samples of all deltas that were not refused, one after the other.
pub open spec fn speech(events: Seq<OpenAiEventView>) -> Seq<i16>
    decreases events.len(),
{
    if events.len() == 0 {
        seq![]
    } else {
        speech(events.drop_last()) + event_samples(events.last())
    }
}

/// The samples that something that happens brings.
pub open spec fn event_samples(event: OpenAiEventView) -> Seq<i16> {
    match event {
        OpenAiEventView::Response { typ, delta } => if typ == "response.audio.delta"@ && delta is Some
            && delta_samples(delta->0) is Ok {
            delta_samples(delta->0)->Ok_0
        } else {
            seq![]
        },
        _ => seq![],
    }
}

/// All frames that are to be encoded, in the order in which they are.
pub open spec fn frames_to_encode(
    session: OpenAiSessionView,
    context: ClientContext,
    events: Seq<OpenAiEventView>,
) -> Seq<Seq<i16>>
    decreases events.len(),
{
    if events.len() == 0 {
        seq![]
    } else {
        let before = events.drop_last();
        let (s, c) = openai_run(session, context, before);
        frames_to_encode(session, context, before) + match openai_step(s, c, events.last()).action {
            OpenAiActionView::Encode(frames) => frames,
            _ => seq![],
        }
    }
}

/// The service's speech reaches the encoder whole and in order, however it is cut into
/// deltas and whatever else happens in between: the frames are those of all its
/// samples in a row, and what does not fill a frame is held back.
pub proof fn law_speech_reaches_the_encoder(
    session: OpenAiSessionView,
    context: ClientContext,
    events: Seq<OpenAiEventView>,
)
    requires
        session.sample_buf.len() < SEND_FRAME_SIZE,
    ensures
        frames_to_encode(session, context, events) == frames_of(
            session.sample_buf + speech(events),
        ),
        openai_run(session, context, events).0.sample_buf == rest_of(
            session.sample_buf + speech(events),
        ),
    decreases events.len(),
{
    let held = session.sample_buf;
    if events.len() == 0 {
        assert(held + speech(events) =~= held);
    } else {
        let before = events.drop_last();
        law_speech_reaches_the_encoder(session, context, before);
        let (s, c) = openai_run(session, context, before);
        let all = held + speech(before);
        let new = event_samples(events.last());
        law_cutting_makes_no_difference(all, new);
        assert(held + speech(events) =~= all + new);
        law_frames_keep_every_sample(all);
        assert(s.sample_buf.len() < SEND_FRAME_SIZE);
        let step = openai_step(s, c, events.last());
        reveal_strlit("session.updated");
        reveal_strlit("response.audio.delta");
        assert("session.updated"@.len() != "response.audio.delta"@.len());
        if step.action is Encode {
            assert(step.action->Encode_0 == frames_of(s.sample_buf + new));
        } else {
            assert(new =~= seq![]);
            assert(s.sample_buf + new =~= s.sample_buf);
            assert(frames_of(s.sample_buf) =~= seq![]);
            assert(frames_to_encode(session, context, events) =~= frames_to_encode(
                session,
                context,
                before,
            ));
            assert(frames_of(all) + frames_of(s.sample_buf + new) =~= frames_of(all));
        }
    }
}

/// The conversation skips this: a frame that is no text, a text that is no event, an
/// event of another type, or a delta event without a delta.
pub open spec fn is_skipped(event: OpenAiEventView) -> bool {
    match event {
        OpenAiEventView::NonText => true,
        OpenAiEventView::Undecodable => true,
        OpenAiEventView::Response { typ, delta } => if typ == "response.audio.delta"@ {
            delta is None
        } else {
            typ != "session.updated"@
        },
        _ => false,
    }
}

/// What the conversation skips leaves everything as it is: the service is waited for,
/// and a conversation goes as it would without it.
pub proof fn law_skipped_events_change_nothing(
    session: OpenAiSessionView,
    context: ClientContext,
    events: Seq<OpenAiEventView>,
)
    ensures
        forall|event: OpenAiEventView| #[trigger]
            is_skipped(event) ==> openai_step(session, context, event) == (OpenAiStep {
                session,
                context,
                action: OpenAiActionView::Read,
            }),
        openai_run(session, context, events) == openai_run(
            session,
            context,
            events.filter(|e: OpenAiEventView| !is_skipped(e)),
        ),
        frames_to_encode(session, context, events) == frames_to_encode(
            session,
            context,
            events.filter(|e: OpenAiEventView| !is_skipped(e)),
        ),
    decreases events.len(),
{
    reveal_strlit("session.updated");
    reveal_strlit("response.audio.delta");
    assert("session.updated"@.len() != "response.audio.delta"@.len());
    reveal(Seq::filter);
    let kept = |e: OpenAiEventView| !is_skipped(e);
    if events.len() > 0 {
        let before = events.drop_last();
        law_skipped_events_change_nothing(session, context, before);
        if kept(events.last()) {
            assert(events.filter(kept).drop_last() =~= before.filter(kept));
            assert(events.filter(kept).last() == events.last());
        } else {
            assert(events.filter(kept) =~= before.filter(kept));
            assert(frames_to_encode(session, context, events) =~= frames_to_encode(
                session,
                context,
                before,
            ));
        }
    }
}

} // verus!
