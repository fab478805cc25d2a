use base64::prelude::BASE64_STANDARD;
use base64::Engine;
use openai_realtime_demo::frames::{
    decode_delta, encode_buffer_size, encode_outcome, encoded_sample, openai_handle_response, take_frames,
    DeltaError, Sample, SEND_FRAME_SIZE,
};
use openai_realtime_demo::pcm::{samples_from_bytes, samples_to_bytes};

fn ramp(from: i16, count: usize) -> Vec<i16> {
    (0..count).map(|i| from.wrapping_add(i as i16)).collect()
}

fn delta(samples: &[i16]) -> String {
    let mut bytes = Vec::new();
    for s in samples {
        bytes.extend_from_slice(&s.to_le_bytes());
    }
    BASE64_STANDARD.encode(bytes)
}

#[test]
fn a_frame_has_480_samples_and_160_bytes() {
    assert_eq!(SEND_FRAME_SIZE, 480);
    assert_eq!(encode_buffer_size(), 160);
    // The same numbers in floating point.
    assert_eq!((20_f64 / 1000.0 * 24000_f64) as usize, SEND_FRAME_SIZE);
    assert_eq!((480_f64 / 24000_f64 * 8000_f64) as usize, encode_buffer_size());
}

#[test]
fn samples_are_little_endian() {
    assert_eq!(
        samples_from_bytes(&[1, 0, 255, 255, 0, 128, 255, 127]),
        vec![1, -1, i16::MIN, i16::MAX]
    );
    assert_eq!(
        samples_to_bytes(&[1, -1, i16::MIN, i16::MAX]),
        vec![1, 0, 255, 255, 0, 128, 255, 127]
    );
}

#[test]
fn samples_survive_bytes() {
    let samples: Vec<i16> = (i16::MIN..=i16::MAX).collect();
    let bytes = samples_to_bytes(&samples);
    assert_eq!(bytes.len(), 131072);
    assert_eq!(samples_from_bytes(&bytes), samples);
    assert_eq!(bytes[0..2], i16::MIN.to_le_bytes());
}

#[test]
fn bytes_survive_samples() {
    let bytes: Vec<u8> = (0..=255).collect();
    assert_eq!(samples_to_bytes(&samples_from_bytes(&bytes)), bytes);
}

#[test]
fn an_odd_last_byte_is_left_out() {
    assert_eq!(samples_from_bytes(&[7, 0, 9]), vec![7]);
    assert_eq!(samples_from_bytes(&[]), Vec::<i16>::new());
}

#[test]
fn a_delta_is_read() {
    assert_eq!(decode_delta("AQD//w=="), Ok(vec![1, -1]));
    assert_eq!(decode_delta("AAEC"), Err(DeltaError::BadLength));
}

#[test]
fn a_text_that_is_not_base64_is_refused() {
    for text in ["AQD//w=", "AQD//w", "AQD/*w==", "AQD//w==\n", "AQD//x==", "====", " "] {
        let mut buf = vec![5, 6];
        assert_eq!(openai_handle_response(&mut buf, text), Err(DeltaError::NotBase64));
        assert_eq!(buf, vec![5, 6]);
    }
}

#[test]
fn an_empty_or_odd_delta_is_refused() {
    for text in ["", "AA==", "AAEC"] {
        let mut buf = ramp(0, 500);
        assert_eq!(openai_handle_response(&mut buf, text), Err(DeltaError::BadLength));
        assert_eq!(buf, ramp(0, 500));
    }
}

#[test]
fn a_short_delta_is_held_back() {
    let mut buf = Vec::new();
    let frames = openai_handle_response(&mut buf, &delta(&ramp(0, 479))).unwrap();
    assert!(frames.is_empty());
    assert_eq!(buf, ramp(0, 479));
    let frames = openai_handle_response(&mut buf, &delta(&[479])).unwrap();
    assert_eq!(frames, vec![ramp(0, 480)]);
    assert!(buf.is_empty());
}

#[test]
fn a_long_delta_gives_several_frames() {
    let mut buf = ramp(0, 10);
    let frames = openai_handle_response(&mut buf, &delta(&ramp(10, 1000))).unwrap();
    assert_eq!(frames, vec![ramp(0, 480), ramp(480, 480)]);
    assert_eq!(buf, ramp(960, 50));
}

#[test]
fn cutting_makes_no_difference() {
    let stream = ramp(-700, 3000);
    let mut whole = Vec::new();
    let expected = take_frames(&mut whole, &stream);
    assert_eq!(expected.len(), 6);
    assert_eq!(whole.len(), 120);
    for cut in [1, 7, 479, 480, 481, 2999] {
        let mut buf = Vec::new();
        let mut frames = Vec::new();
        for chunk in stream.chunks(cut) {
            frames.extend(openai_handle_response(&mut buf, &delta(chunk)).unwrap());
        }
        assert_eq!(frames, expected);
        assert_eq!(buf, whole);
    }
}

#[test]
fn frames_keep_every_sample() {
    let stream = ramp(3, 1441);
    let mut buf = Vec::new();
    let frames = take_frames(&mut buf, &stream);
    assert!(frames.iter().all(|f| f.len() == 480));
    let mut all: Vec<i16> = frames.concat();
    all.extend_from_slice(&buf);
    assert_eq!(all, stream);
    assert_eq!(buf.len(), 1);
}

#[test]
fn an_encoded_frame_is_cut_to_what_was_written() {
    assert_eq!(
        encoded_sample(vec![1, 2, 3, 4], 3),
        Sample { data: vec![1, 2, 3], duration_ms: 20 }
    );
    assert_eq!(encoded_sample(vec![1, 2], 2).data, vec![1, 2]);
    assert_eq!(encoded_sample(vec![1, 2], 0).data, Vec::<u8>::new());
    assert_eq!(encoded_sample(vec![1, 2], 9).data, vec![1, 2]);
}

#[test]
fn a_frame_that_cannot_be_encoded_is_dropped() {
    assert_eq!(encode_outcome(vec![1, 2, 3], None), None);
    assert_eq!(
        encode_outcome(vec![1, 2, 3], Some(2)),
        Some(Sample { data: vec![1, 2], duration_ms: 20 })
    );
    assert_eq!(
        encode_outcome(vec![1, 2, 3], Some(0)),
        Some(Sample { data: vec![], duration_ms: 20 })
    );
    assert_eq!(encode_outcome(vec![1], Some(9)).unwrap().data, vec![1]);
}

#[test]
fn exactly_the_encoded_frames_are_sent_in_order() {
    let mut buf = Vec::new();
    let frames = openai_handle_response(&mut buf, &delta(&ramp(0, 5 * 480 + 3))).unwrap();
    assert_eq!(frames.len(), 5);
    assert_eq!(buf, ramp(2400, 3));
    // The second and the fifth frame fail.
    let outcomes = [Some(1), None, Some(2), Some(0), None];
    let mut sent = Vec::new();
    for (k, written) in outcomes.into_iter().enumerate() {
        sent.extend(encode_outcome(vec![k as u8; 160], written));
    }
    let data: Vec<Vec<u8>> = sent.into_iter().map(|s| s.data).collect();
    assert_eq!(data, vec![vec![0], vec![2, 2], vec![]]);
    assert_eq!(buf, ramp(2400, 3));
}
