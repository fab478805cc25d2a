use openai_realtime_demo::frames::{decode_delta, Sample};
use openai_realtime_demo::tracks::{
    audio_text, remote_bufsender, remote_track_handle, PlayAction, PlayEvent, RemoteTrack,
    TrackAction, TrackEvent,
};

#[test]
fn packets_are_discarded_until_the_session_is_accepted() {
    let mut track = RemoteTrack::new();
    assert_eq!(
        remote_track_handle(&mut track, TrackEvent::Packet { openai_connected: false }),
        TrackAction::Read
    );
    assert!(!track.connected);
    assert_eq!(
        remote_track_handle(&mut track, TrackEvent::Packet { openai_connected: true }),
        TrackAction::Count
    );
    assert!(track.connected);
    assert_eq!(
        remote_track_handle(&mut track, TrackEvent::Packet { openai_connected: false }),
        TrackAction::Count
    );
}

#[test]
fn a_packet_is_counted_and_decoded() {
    let mut track = RemoteTrack { connected: true };
    assert_eq!(
        remote_track_handle(&mut track, TrackEvent::Counted(Some(480))),
        TrackAction::Decode(480)
    );
    assert_eq!(
        remote_track_handle(&mut track, TrackEvent::Counted(Some(0))),
        TrackAction::Read
    );
    assert_eq!(
        remote_track_handle(&mut track, TrackEvent::Counted(None)),
        TrackAction::ReportCount
    );
    assert_eq!(
        remote_track_handle(&mut track, TrackEvent::Decoded(None)),
        TrackAction::ReportDecode
    );
    assert_eq!(
        remote_track_handle(&mut track, TrackEvent::Decoded(Some((2, vec![1, -1])))),
        TrackAction::Pass("AQD//w==".to_string())
    );
    assert_eq!(track, RemoteTrack { connected: true });
}

#[test]
fn the_track_ends_with_its_ends() {
    let mut track = RemoteTrack { connected: true };
    assert_eq!(remote_track_handle(&mut track, TrackEvent::ReadFailed), TrackAction::Stop);
    assert_eq!(remote_track_handle(&mut track, TrackEvent::Passed(true)), TrackAction::Read);
    assert_eq!(remote_track_handle(&mut track, TrackEvent::Passed(false)), TrackAction::Stop);
}

#[test]
fn audio_is_read_back_from_its_text() {
    assert_eq!(audio_text(&[]), "");
    assert_eq!(audio_text(&[0]), "AAA=");
    assert_eq!(audio_text(&[-1, 0x1234, i16::MIN]), "//80EgCA");
    for count in [1, 2, 3, 4, 2880] {
        let samples: Vec<i16> = (0..count).map(|i| (i * 37) as i16 - 1000).collect();
        assert_eq!(decode_delta(&audio_text(&samples)), Ok(samples));
    }
}

#[test]
fn samples_are_written_with_pauses() {
    let sample = || Sample { data: vec![1, 2], duration_ms: 20 };
    assert_eq!(
        remote_bufsender(PlayEvent::Received(Some(sample()))),
        PlayAction::Write(sample())
    );
    assert_eq!(remote_bufsender(PlayEvent::Written(true)), PlayAction::Rest(19));
    assert_eq!(remote_bufsender(PlayEvent::Rested), PlayAction::Receive);
    assert_eq!(remote_bufsender(PlayEvent::Written(false)), PlayAction::Stop);
    assert_eq!(remote_bufsender(PlayEvent::Received(None)), PlayAction::Stop);
}
