//! The browser's track and the track to the browser: what to do about each packet of
//! the user's speech, and when to write which sample of the service's speech.

use crate::base64_text::{base64_bytes, base64_encode, base64_text, law_base64_round_trip};
use crate::frames::{delta_samples, law_delta_carries_samples, DeltaError, Sample, FRAME_TIME};
use crate::pcm::{bytes_of, law_bytes_are_little_endian, samples_to_bytes};
use vstd::prelude::*;

verus! {

/// The track on which the user's speech comes.
#[derive(Debug, Clone, Copy, PartialEq, Eq, Structural)]
pub struct RemoteTrack {
    /// The service has accepted the session, as far as this track has found out.
    pub connected: bool,
}

/// What has happened on the browser's track.
#[derive(Debug, PartialEq, Eq)]
pub enum TrackEvent {
    /// Reading a packet failed.
    ReadFailed,
    /// A packet came; whether the service has accepted the session by now.
    Packet { openai_connected: bool },
    /// The packet's samples were counted; `None` where that failed.
    Counted(Option<usize>),
    /// The packet was decoded: how many samples the decoder reports, and the buffer of
    /// as many samples as were counted. `None` where that failed.
    Decoded(Option<(usize, Vec<i16>)>),
    /// The audio was passed on; false where nobody takes it any more.
    Passed(bool),
}

/// What to do next.
#[derive(Debug, PartialEq, Eq)]
pub enum TrackAction {
    /// Leave the track.
    Stop,
    /// Wait for a packet.
    Read,
    /// Count the packet's samples.
    Count,
    /// Decode the packet into a buffer of that many samples.
    Decode(usize),
    /// Report that counting failed, and wait for a packet.
    ReportCount,
    /// Report that decoding failed, and wait for a packet.
    ReportDecode,
    /// Pass the audio on.
    Pass(String),
}

/// What a `TrackAction` holds.
pub enum TrackActionView {
    Stop,
    Read,
    Count,
    Decode(usize),
    ReportCount,
    ReportDecode,
    Pass(Seq<char>),
}

impl View for TrackAction {
    type V = TrackActionView;

    open spec fn view(&self) -> TrackActionView {
        match *self {
            TrackAction::Stop => TrackActionView::Stop,
            TrackAction::Read => TrackActionView::Read,
            TrackAction::Count => TrackActionView::Count,
            TrackAction::Decode(n) => TrackActionView::Decode(n),
            TrackAction::ReportCount => TrackActionView::ReportCount,
            TrackAction::ReportDecode => TrackActionView::ReportDecode,
            TrackAction::Pass(t) => TrackActionView::Pass(t@),
        }
    }
}

/// The decoder has filled the whole buffer, and the audio fits into a string.
pub open spec fn well_decoded(event: TrackEvent) -> bool {
    event matches TrackEvent::Decoded(Some(decoded)) ==> {
        &&& decoded.0 == decoded.1@.len()
        &&& 2 * decoded.1@.len() <= isize::MAX as int / 4 * 3
    }
}

/// What to do about an event on the browser's track. Packets that come before the
/// service has accepted the session are discarded.
pub open spec fn track_action(track: RemoteTrack, event: TrackEvent) -> TrackActionView {
    match event {
        TrackEvent::ReadFailed => TrackActionView::Stop,
        TrackEvent::Packet { openai_connected } => if track.connected || openai_connected {
            TrackActionView::Count
        } else {
            TrackActionView::Read
        },
        TrackEvent::Counted(None) => TrackActionView::ReportCount,
        TrackEvent::Counted(Some(size)) => if size > 0 {
            TrackActionView::Decode(size)
        } else {
            TrackActionView::Read
        },
        TrackEvent::Decoded(None) => TrackActionView::ReportDecode,
        TrackEvent::Decoded(Some(decoded)) => TrackActionView::Pass(
            base64_text(bytes_of(decoded.1@)),
        ),
        TrackEvent::Passed(taken) => if taken {
            TrackActionView::Read
        } else {
            TrackActionView::Stop
        },
    }
}

/// The track after an event: once it has found the session accepted, it does not ask
/// again.
pub open spec fn track_after(track: RemoteTrack, event: TrackEvent) -> RemoteTrack {
    match event {
        TrackEvent::Packet { openai_connected } => RemoteTrack {
            connected: track.connected || openai_connected,
        },
        _ => track,
    }
}

impl RemoteTrack {
    /// A track on which nothing has happened.
    pub fn new() -> (track: RemoteTrack)
        ensures
            !track.connected,
    {
        RemoteTrack { connected: false }
    }
}

/// Writes samples as the text in which they are passed on to the service.
pub fn audio_text(pcm_buf: &[i16]) -> (text: String)
    requires
        2 * pcm_buf@.len() <= isize::MAX as int / 4 * 3,
    ensures
        text@ == base64_text(bytes_of(pcm_buf@)),
        pcm_buf@.len() > 0 ==> delta_samples(text@) == Ok::<Seq<i16>, DeltaError>(pcm_buf@),
        exists|bytes: Seq<u8>|
            {
                &&& text@ == #[trigger] base64_text(bytes)
                &&& bytes.len() == 2 * pcm_buf@.len()
                &&& forall|i: int|
                    0 <= i < pcm_buf@.len() ==> bytes[2 * i] as int + 256 * bytes[2 * i + 1] as int
                        == #[trigger] pcm_buf@[i] as int + (if pcm_buf@[i] < 0 {
                        65536int
                    } else {
                        0int
                    })
            },
{
    let buf: Vec<u8> = samples_to_bytes(pcm_buf);
    proof {
        if pcm_buf@.len() > 0 {
            law_delta_carries_samples(pcm_buf@);
        }
    }
    let text = base64_encode(buf.as_slice());
    assert(text@ == base64_text(buf@));
    text
}

/// Decides what to do about an event on the browser's track.
pub fn remote_track_handle(track: &mut RemoteTrack, event: TrackEvent) -> (action: TrackAction)
    requires
        well_decoded(event),
    ensures
        action@ == track_action(*old(track), event),
        *final(track) == track_after(*old(track), event),
        match event {
            TrackEvent::ReadFailed => action is Stop,
            TrackEvent::Packet { openai_connected } => if old(track).connected || openai_connected {
                action is Count
            } else {
                action is Read
            },
            TrackEvent::Counted(None) => action is ReportCount,
            TrackEvent::Counted(Some(size)) => if size == 0 {
                action is Read
            } else {
                action == TrackAction::Decode(size)
            },
            TrackEvent::Decoded(None) => action is ReportDecode,
            TrackEvent::Decoded(Some(decoded)) => {
                &&& action matches TrackAction::Pass(text)
                &&& text@ == base64_text(bytes_of(decoded.1@))
                &&& decoded.1@.len() > 0 ==> delta_samples(text@) == Ok::<Seq<i16>, DeltaError>(
                    decoded.1@,
                )
            },
            TrackEvent::Passed(true) => action is Read,
            TrackEvent::Passed(false) => action is Stop,
        },
        match event {
            TrackEvent::Packet { openai_connected } => final(track).connected == (
            old(track).connected || openai_connected),
            _ => final(track).connected == old(track).connected,
        },
{
    match event {
        TrackEvent::ReadFailed => TrackAction::Stop,
        TrackEvent::Packet { openai_connected } => {
            if !track.connected {
                if !openai_connected {
                    return TrackAction::Read;
                }
                track.connected = true;
            }
            TrackAction::Count
        },
        TrackEvent::Counted(counted) => match counted {
            None => TrackAction::ReportCount,
            Some(size) => if size > 0 {
                TrackAction::Decode(size)
            } else {
                TrackAction::Read
            },
        },
        TrackEvent::Decoded(decoded) => match decoded {
            None => TrackAction::ReportDecode,
            Some(d) => TrackAction::Pass(audio_text(d.1.as_slice())),
        },
        TrackEvent::Passed(taken) => if taken {
            TrackAction::Read
        } else {
            TrackAction::Stop
        },
    }
}

/// The view of an action tells which one it is and what it carries.
pub proof fn law_track_action_view(action: TrackAction)
    ensures
        action@ is Stop <==> action is Stop,
        action@ is Read <==> action is Read,
        action@ is Count <==> action is Count,
        action@ is ReportCount <==> action is ReportCount,
        action@ is ReportDecode <==> action is ReportDecode,
        action matches TrackAction::Decode(n) ==> action@ == TrackActionView::Decode(n),
        action matches TrackAction::Pass(text) ==> action@ == TrackActionView::Pass(text@),
{
}

/// A packet is well decoded if its buffer is full and its text fits into a string,
/// however many samples it has; nothing is asked of any other event.
pub proof fn law_well_decoded(event: TrackEvent, count: usize, samples: Vec<i16>)
    ensures
        !(event is Decoded) ==> well_decoded(event),
        well_decoded(TrackEvent::Decoded(None)),
        well_decoded(TrackEvent::Decoded(Some((count, samples)))) <==> count == samples@.len() && 2
            * samples@.len() <= isize::MAX as int / 4 * 3,
{
}

/// No decoded packet is dropped: whatever its samples are and in whatever state the
/// track is, a text is passed on, and whoever reads the text finds the samples in it,
/// each as two bytes, the low byte first.
pub proof fn law_decoded_packets_are_passed_on(
    track: RemoteTrack,
    count: usize,
    samples: Vec<i16>,
    i: int,
)
    requires
        0 <= i < samples@.len(),
    ensures
        ({
            let action = track_action(track, TrackEvent::Decoded(Some((count, samples))));
            &&& action matches TrackActionView::Pass(text)
            &&& delta_samples(text) == Ok::<Seq<i16>, DeltaError>(samples@)
            &&& base64_bytes(text) matches Some(bytes)
            &&& bytes.len() == 2 * samples@.len()
            &&& bytes[2 * i] as int + 256 * bytes[2 * i + 1] as int == samples@[i] as int + (
            if samples@[i] < 0 {
                65536int
            } else {
                0int
            })
        }),
{
    law_delta_carries_samples(samples@);
    law_base64_round_trip(bytes_of(samples@));
    law_bytes_are_little_endian(samples@, i);
}

/// A packet is discarded exactly while the service has not accepted the session; a
/// packet with samples is decoded into as many as were counted.
pub proof fn law_packets_are_decoded_when_connected(
    track: RemoteTrack,
    openai_connected: bool,
    size: usize,
)
    ensures
        track_action(track, TrackEvent::Packet { openai_connected }) is Read <==> !track.connected
            && !openai_connected,
        track_action(track, TrackEvent::Packet { openai_connected }) is Count <==> track.connected
            || openai_connected,
        track_after(track, TrackEvent::Packet { openai_connected }).connected <==> track.connected
            || openai_connected,
        size > 0 ==> track_action(track, TrackEvent::Counted(Some(size)))
            == TrackActionView::Decode(size),
        track_action(track, TrackEvent::Counted(Some(0))) is Read,
{
}

/// The track is left exactly if reading fails or nobody takes the audio any more; a
/// packet that cannot be counted or decoded is reported, and the track goes on.
pub proof fn law_track_ends_with_its_ends(track: RemoteTrack, event: TrackEvent)
    ensures
        track_action(track, event) is Stop <==> event is ReadFailed || event
            == TrackEvent::Passed(false),
        track_action(track, TrackEvent::Passed(true)) is Read,
        track_action(track, TrackEvent::Counted(None)) is ReportCount,
        track_action(track, TrackEvent::Decoded(None)) is ReportDecode,
        !(event is Packet) ==> track_after(track, event) == track,
{
}

/// No packet is discarded any more once one was not.
pub proof fn law_no_packet_is_discarded_again(
    track: RemoteTrack,
    between: Seq<TrackEvent>,
    now: bool,
    later: bool,
)
    requires
        track_action(track, TrackEvent::Packet { openai_connected: now }) is Count,
    ensures
        track_action(
            track_run(track_after(track, TrackEvent::Packet { openai_connected: now }), between),
            TrackEvent::Packet { openai_connected: later },
        ) is Count,
{
    lemma_track_stays_connected(
        track_after(track, TrackEvent::Packet { openai_connected: now }),
        between,
    );
}

/// The track after a number of events.
pub open spec fn track_run(track: RemoteTrack, events: Seq<TrackEvent>) -> RemoteTrack
    decreases events.len(),
{
    if events.len() == 0 {
        track
    } else {
        track_after(track_run(track, events.drop_last()), events.last())
    }
}

proof fn lemma_track_stays_connected(track: RemoteTrack, events: Seq<TrackEvent>)
    requires
        track.connected,
    ensures
        track_run(track, events).connected,
    decreases events.len(),
{
    if events.len() > 0 {
        lemma_track_stays_connected(track, events.drop_last());
    }
}

/// What has happened on the way to the track to the browser.
#[derive(Debug, PartialEq, Eq)]
pub enum PlayEvent {
    /// A sample came, or `None` where no more come.
    Received(Option<Sample>),
    /// A sample was written; false where that failed.
    Written(bool),
    /// The pause is over.
    Rested,
}

/// What to do next.
#[derive(Debug, PartialEq, Eq)]
pub enum PlayAction {
    /// Wait for a sample.
    Receive,
    /// Write the sample to the track.
    Write(Sample),
    /// Pause for that many milliseconds.
    Rest(u64),
    /// Leave the track.
    Stop,
}

/// Decides how to go on with writing samples to the track to the browser. The pause
/// after a sample is a little shorter than the sample sounds.
pub fn remote_bufsender(event: PlayEvent) -> (action: PlayAction)
    ensures
        match event {
            PlayEvent::Received(None) => action is Stop,
            PlayEvent::Received(Some(sample)) => action == PlayAction::Write(sample),
            PlayEvent::Written(true) => {
                &&& action == PlayAction::Rest((FRAME_TIME - 1) as u64)
                &&& action == PlayAction::Rest(19)
            },
            PlayEvent::Written(false) => action is Stop,
            PlayEvent::Rested => action is Receive,
        },
{
    match event {
        PlayEvent::Received(received) => match received {
            None => PlayAction::Stop,
            Some(sample) => PlayAction::Write(sample),
        },
        PlayEvent::Written(written) => if written {
            PlayAction::Rest(FRAME_TIME as u64 - 1)
        } else {
            PlayAction::Stop
        },
        PlayEvent::Rested => PlayAction::Receive,
    }
}

} // verus!
