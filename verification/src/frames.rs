//! Speech that comes back from the service: base64 deltas in, frames for the Opus
//! encoder out, and encoded frames as samples for the browser's track.

use crate::base64_text::{
    base64_bytes, base64_decode, base64_text, law_base64_round_trip, law_base64_text_is_injective,
};
use crate::pcm::{
    bytes_of, law_samples_are_little_endian, law_samples_survive_bytes, samples_from_bytes, samples_of,
};
use vstd::prelude::*;

verus! {

/// Samples per second, both ways between this program and the service.
pub const SAMPLE_RATE: u32 = 24000;

/// Bits per second of the encoded speech.
pub const BITRATE: usize = 64000;

/// Bytes per second of the encoded speech.
pub const BYTERATE: usize = BITRATE / 8;

/// Length of a frame in milliseconds.
pub const FRAME_TIME: usize = 20;

/// Samples in a frame.
pub const SEND_FRAME_SIZE: usize = FRAME_TIME * SAMPLE_RATE as usize / 1000;

/// The least room for an encoded frame, in bytes.
pub const MIN_ENCODE_BUFFER: usize = 100;

/// Why a delta was not taken.
#[derive(Debug, Clone, Copy, PartialEq, Eq, Structural)]
pub enum DeltaError {
    /// The text is not base64.
    NotBase64,
    /// The bytes are none, or an odd number of them.
    BadLength,
}

/// An encoded frame, ready for the track.
#[derive(Debug, PartialEq, Eq)]
pub struct Sample {
    /// The encoded bytes.
    pub data: Vec<u8>,
    /// How long the frame sounds, in milliseconds.
    pub duration_ms: u64,
}

/// The full frames of `samples` in their order: the first `SEND_FRAME_SIZE` samples,
/// and then the full frames of what follows them.
pub open spec fn frames_of(samples: Seq<i16>) -> Seq<Seq<i16>>
    decreases samples.len(),
{
    if samples.len() < SEND_FRAME_SIZE {
        seq![]
    } else {
        seq![samples.take(SEND_FRAME_SIZE as int)] + frames_of(samples.skip(SEND_FRAME_SIZE as int))
    }
}

/// What is left of `samples` behind the full frames.
pub open spec fn rest_of(samples: Seq<i16>) -> Seq<i16>
    decreases samples.len(),
{
    if samples.len() < SEND_FRAME_SIZE {
        samples
    } else {
        rest_of(samples.skip(SEND_FRAME_SIZE as int))
    }
}

/// The samples that a delta carries.
pub open spec fn delta_samples(text: Seq<char>) -> Result<Seq<i16>, DeltaError> {
    match base64_bytes(text) {
        None => Err(DeltaError::NotBase64),
        Some(bytes) => if bytes.len() == 0 || bytes.len() % 2 != 0 {
            Err(DeltaError::BadLength)
        } else {
            Ok(samples_of(bytes))
        },
    }
}

/// The frames as sequences.
pub open spec fn frame_views(frames: Seq<Vec<i16>>) -> Seq<Seq<i16>> {
    frames.map_values(|f: Vec<i16>| f@)
}

/// The frames and the samples left over after the chunks were taken one by one,
/// starting with `samples` left over.
pub open spec fn fed(samples: Seq<i16>, chunks: Seq<Seq<i16>>) -> (Seq<Seq<i16>>, Seq<i16>)
    decreases chunks.len(),
{
    if chunks.len() == 0 {
        (seq![], samples)
    } else {
        let (frames, left) = fed(samples, chunks.drop_last());
        (frames + frames_of(left + chunks.last()), rest_of(left + chunks.last()))
    }
}

/// Nothing is lost, added or reordered: the frames one after the other, and then what
/// is left, are the samples. A frame has `SEND_FRAME_SIZE` samples, and what is left
/// has fewer.
pub proof fn law_frames_keep_every_sample(samples: Seq<i16>)
    ensures
        frames_of(samples).flatten() + rest_of(samples) == samples,
        forall|k: int|
            0 <= k < frames_of(samples).len() ==> (#[trigger] frames_of(samples)[k]).len()
                == SEND_FRAME_SIZE,
        rest_of(samples).len() < SEND_FRAME_SIZE,
    decreases samples.len(),
{
    if samples.len() < SEND_FRAME_SIZE {
        assert(frames_of(samples).flatten() =~= seq![]);
        assert(frames_of(samples).flatten() + rest_of(samples) =~= samples);
    } else {
        let first = samples.take(SEND_FRAME_SIZE as int);
        let behind = samples.skip(SEND_FRAME_SIZE as int);
        law_frames_keep_every_sample(behind);
        assert(frames_of(samples).drop_first() =~= frames_of(behind));
        assert(frames_of(samples).flatten() == first + frames_of(behind).flatten());
        assert(samples =~= first + behind);
        assert(frames_of(samples).flatten() + rest_of(samples) =~= samples);
        assert forall|k: int| 0 <= k < frames_of(samples).len() implies (#[trigger] frames_of(
            samples,
        )[k]).len() == SEND_FRAME_SIZE by {
            if k > 0 {
                assert(frames_of(samples)[k] == frames_of(behind)[k - 1]);
            }
        }
    }
}

/// Where a stream of samples is cut makes no difference: taking `first` and then
/// `second` gives the frames, and leaves what is left, of taking both at once.
pub proof fn law_cutting_makes_no_difference(first: Seq<i16>, second: Seq<i16>)
    ensures
        frames_of(first + second) == frames_of(first) + frames_of(rest_of(first) + second),
        rest_of(first + second) == rest_of(rest_of(first) + second),
    decreases first.len(),
{
    if first.len() < SEND_FRAME_SIZE {
        assert(frames_of(first + second) =~= frames_of(first) + frames_of(
            rest_of(first) + second,
        ));
    } else {
        let behind = first.skip(SEND_FRAME_SIZE as int);
        law_cutting_makes_no_difference(behind, second);
        assert((first + second).take(SEND_FRAME_SIZE as int) =~= first.take(
            SEND_FRAME_SIZE as int,
        ));
        assert((first + second).skip(SEND_FRAME_SIZE as int) =~= behind + second);
        assert(frames_of(first + second) =~= frames_of(first) + frames_of(
            rest_of(first) + second,
        ));
    }
}

/// However many chunks a stream of samples comes in, they give the frames, and leave
/// what is left, of the whole stream.
pub proof fn law_chunks_make_no_difference(samples: Seq<i16>, chunks: Seq<Seq<i16>>)
    requires
        samples.len() < SEND_FRAME_SIZE,
    ensures
        fed(samples, chunks) == (
            frames_of(samples + chunks.flatten()),
            rest_of(samples + chunks.flatten()),
        ),
    decreases chunks.len(),
{
    if chunks.len() == 0 {
        assert(samples + chunks.flatten() =~= samples);
        assert(frames_of(samples) =~= seq![]);
    } else {
        let before = chunks.drop_last();
        law_chunks_make_no_difference(samples, before);
        assert(chunks =~= before.push(chunks.last()));
        before.lemma_flatten_push(chunks.last());
        law_cutting_makes_no_difference(samples + before.flatten(), chunks.last());
        assert(samples + chunks.flatten() =~= samples + before.flatten() + chunks.last());
    }
}

/// Samples that are written as bytes and as base64 come out of the delta unchanged.
pub proof fn law_delta_carries_samples(samples: Seq<i16>)
    requires
        samples.len() > 0,
    ensures
        delta_samples(base64_text(bytes_of(samples))) == Ok::<Seq<i16>, DeltaError>(samples),
{
    law_base64_round_trip(bytes_of(samples));
    law_samples_survive_bytes(samples);
}

/// A delta carries the samples that its bytes give, the low byte first and in two's
/// complement. No bytes, or an odd number of them, and a text that is not base64 are
/// refused.
pub proof fn law_delta_is_read_little_endian(bytes: Seq<u8>, i: int)
    ensures
        bytes.len() == 0 || bytes.len() % 2 != 0 ==> delta_samples(base64_text(bytes)) == Err::<
            Seq<i16>,
            DeltaError,
        >(DeltaError::BadLength),
        bytes.len() > 0 && bytes.len() % 2 == 0 ==> {
            &&& delta_samples(base64_text(bytes)) matches Ok(samples)
            &&& 2 * samples.len() == bytes.len()
            &&& 0 <= i < samples.len() ==> samples[i] as int == bytes[2 * i] as int + 256 * bytes[2
                * i + 1] as int - (if bytes[2 * i + 1] < 128 {
                0int
            } else {
                65536int
            })
        },
{
    law_base64_round_trip(bytes);
    if bytes.len() % 2 == 0 && 0 <= i < bytes.len() / 2 {
        law_samples_are_little_endian(bytes, i);
    }
}

/// A text that is the base64 text of no bytes is refused.
pub proof fn law_delta_must_be_base64(text: Seq<char>)
    requires
        forall|bytes: Seq<u8>| text != #[trigger] base64_text(bytes),
    ensures
        delta_samples(text) == Err::<Seq<i16>, DeltaError>(DeltaError::NotBase64),
{
}

/// Reads the samples out of a delta.
pub fn decode_delta(b64_buf: &str) -> (result: Result<Vec<i16>, DeltaError>)
    ensures
        match result {
            Ok(samples) => delta_samples(b64_buf@) == Ok::<Seq<i16>, DeltaError>(samples@),
            Err(e) => delta_samples(b64_buf@) == Err::<Seq<i16>, DeltaError>(e),
        },
        forall|bytes: Seq<u8>|
            b64_buf@ == #[trigger] base64_text(bytes) ==> if bytes.len() == 0 || bytes.len() % 2
                != 0 {
                result == Err::<Vec<i16>, DeltaError>(DeltaError::BadLength)
            } else {
                &&& result matches Ok(samples)
                &&& 2 * samples@.len() == bytes.len()
                &&& forall|i: int|
                    0 <= i < samples@.len() ==> #[trigger] samples@[i] as int == bytes[2 * i] as int
                        + 256 * bytes[2 * i + 1] as int - (if bytes[2 * i + 1] < 128 {
                        0int
                    } else {
                        65536int
                    })
            },
        (forall|bytes: Seq<u8>| b64_buf@ != #[trigger] base64_text(bytes)) ==> result == Err::<
            Vec<i16>,
            DeltaError,
        >(DeltaError::NotBase64),
{
    match base64_decode(b64_buf) {
        None => Err(DeltaError::NotBase64),
        Some(buf) => {
            proof {
                law_base64_round_trip(buf@);
                assert forall|bytes: Seq<u8>| b64_buf@ == #[trigger] base64_text(bytes) implies bytes
                    == buf@ by {
                    law_base64_text_is_injective(bytes, buf@);
                }
            }
            if buf.len() == 0 || buf.len() % 2 != 0 {
                Err(DeltaError::BadLength)
            } else {
                Ok(samples_from_bytes(buf.as_slice()))
            }
        },
    }
}

/// Appends samples to the buffer and takes all full frames out of it.
pub fn take_frames(sample_buf: &mut Vec<i16>, pcm_buf: &[i16]) -> (frames: Vec<Vec<i16>>)
    ensures
        frame_views(frames@) == frames_of(old(sample_buf)@ + pcm_buf@),
        final(sample_buf)@ == rest_of(old(sample_buf)@ + pcm_buf@),
        frames@.map_values(|f: Vec<i16>| f@).flatten() + final(sample_buf)@ == old(sample_buf)@
            + pcm_buf@,
        forall|k: int| 0 <= k < frames@.len() ==> (#[trigger] frames@[k])@.len() == 480,
        final(sample_buf)@.len() < 480,
{
    let ghost all = sample_buf@ + pcm_buf@;
    sample_buf.extend_from_slice(pcm_buf);
    assert(sample_buf@ =~= all);
    let mut frames: Vec<Vec<i16>> = Vec::new();
    assert(frames_of(all) =~= frame_views(frames@) + frames_of(sample_buf@));
    while sample_buf.len() >= SEND_FRAME_SIZE
        invariant
            frames_of(all) == frame_views(frames@) + frames_of(sample_buf@),
            rest_of(all) == rest_of(sample_buf@),
        decreases sample_buf@.len(),
    {
        let ghost before = sample_buf@;
        let ghost taken = frame_views(frames@);
        let mut frame: Vec<i16> = sample_buf.split_off(SEND_FRAME_SIZE);
        std::mem::swap(&mut frame, sample_buf);
        assert(frame@ =~= before.take(SEND_FRAME_SIZE as int));
        assert(sample_buf@ =~= before.skip(SEND_FRAME_SIZE as int));
        frames.push(frame);
        assert(frame_views(frames@) =~= taken + seq![before.take(SEND_FRAME_SIZE as int)]);
        assert(frames_of(all) =~= frame_views(frames@) + frames_of(sample_buf@));
    }
    assert(frames_of(all) =~= frame_views(frames@));
    proof {
        law_frames_keep_every_sample(all);
        assert(frames@.map_values(|f: Vec<i16>| f@) =~= frames_of(all));
        assert forall|k: int| 0 <= k < frames@.len() implies (#[trigger] frames@[k])@.len()
            == 480 by {
            assert(frames_of(all)[k] == frames@[k]@);
        }
    }
    frames
}

/// Takes a delta of the service's speech. A good one is appended to `sample_buf`, and
/// the frames that are full then are taken out of it and returned, to be encoded one
/// after the other. One that is not base64, is empty or has an odd length is refused
/// and changes nothing.
pub fn openai_handle_response(sample_buf: &mut Vec<i16>, b64_buf: &str) -> (result: Result<
    Vec<Vec<i16>>,
    DeltaError,
>)
    ensures
        match delta_samples(b64_buf@) {
            Ok(samples) => {
                &&& result matches Ok(frames)
                &&& frame_views(frames@) == frames_of(old(sample_buf)@ + samples)
                &&& final(sample_buf)@ == rest_of(old(sample_buf)@ + samples)
            },
            Err(e) => {
                &&& result == Err::<Vec<Vec<i16>>, DeltaError>(e)
                &&& final(sample_buf)@ == old(sample_buf)@
            },
        },
        forall|bytes: Seq<u8>|
            b64_buf@ == #[trigger] base64_text(bytes) ==> if bytes.len() == 0 || bytes.len() % 2
                != 0 {
                &&& result == Err::<Vec<Vec<i16>>, DeltaError>(DeltaError::BadLength)
                &&& final(sample_buf)@ == old(sample_buf)@
            } else {
                &&& result matches Ok(frames)
                &&& forall|k: int| 0 <= k < frames@.len() ==> (#[trigger] frames@[k])@.len() == 480
                &&& final(sample_buf)@.len() < 480
                &&& ({
                    let held = old(sample_buf)@;
                    let all = frames@.map_values(|f: Vec<i16>| f@).flatten() + final(sample_buf)@;
                    &&& all.len() == held.len() + bytes.len() / 2
                    &&& all.take(held.len() as int) == held
                    &&& forall|i: int|
                        0 <= i < bytes.len() / 2 ==> #[trigger] all[held.len() + i] as int
                            == bytes[2 * i] as int + 256 * bytes[2 * i + 1] as int - (if bytes[2 * i
                            + 1] < 128 {
                            0int
                        } else {
                            65536int
                        })
                })
            },
        (forall|bytes: Seq<u8>| b64_buf@ != #[trigger] base64_text(bytes)) ==> {
            &&& result == Err::<Vec<Vec<i16>>, DeltaError>(DeltaError::NotBase64)
            &&& final(sample_buf)@ == old(sample_buf)@
        },
{
    match decode_delta(b64_buf) {
        Err(e) => Err(e),
        Ok(pcm_buf) => {
            let ghost held = sample_buf@;
            let frames = take_frames(sample_buf, pcm_buf.as_slice());
            assert((held + pcm_buf@).take(held.len() as int) =~= held);
            assert forall|i: int| 0 <= i < pcm_buf@.len() implies #[trigger] (held + pcm_buf@)[held.len()
                + i] == pcm_buf@[i] by {}
            Ok(frames)
        },
    }
}

/// The size of the buffer that a frame is encoded into: as many bytes as the bit rate
/// allows for a frame, which is more than the least room for one.
pub fn encode_buffer_size() -> (size: usize)
    ensures
        size == 160,
        size * SAMPLE_RATE == SEND_FRAME_SIZE * BYTERATE,
        size >= MIN_ENCODE_BUFFER,
{
    assert(SEND_FRAME_SIZE * BYTERATE == 160 * SAMPLE_RATE) by (nonlinear_arith)
        requires
            SEND_FRAME_SIZE == 480,
            BYTERATE == 8000,
            SAMPLE_RATE == 24000,
    ;
    let size: usize = SEND_FRAME_SIZE * BYTERATE / SAMPLE_RATE as usize;
    assert(size == 160) by (nonlinear_arith)
        requires
            size == SEND_FRAME_SIZE * BYTERATE / SAMPLE_RATE as int,
            SEND_FRAME_SIZE * BYTERATE == 160 * SAMPLE_RATE,
            SAMPLE_RATE == 24000,
    ;
    if size < MIN_ENCODE_BUFFER {
        MIN_ENCODE_BUFFER
    } else {
        size
    }
}

/// What a `Sample` holds.
pub struct SampleView {
    pub data: Seq<u8>,
    pub duration_ms: u64,
}

impl View for Sample {
    type V = SampleView;

    open spec fn view(&self) -> SampleView {
        SampleView { data: self.data@, duration_ms: self.duration_ms }
    }
}

/// The view of a sample holds its bytes and its duration.
pub proof fn law_sample_view(sample: Sample)
    ensures
        sample@.data == sample.data@,
        sample@.duration_ms == sample.duration_ms,
{
}

/// The views of frames hold the samples of each.
pub proof fn law_frame_views(frames: Seq<Vec<i16>>)
    ensures
        frame_views(frames).len() == frames.len(),
        forall|k: int| 0 <= k < frames.len() ==> #[trigger] frame_views(frames)[k] == frames[k]@,
{
}

/// What came of encoding a frame: the buffer, and how many bytes the encoder reports to
/// have written to it, or `None` where it failed.
pub struct Encoding {
    pub encbuf: Seq<u8>,
    pub written: Option<usize>,
}

impl Encoding {
    /// The sample that a frame becomes: what was written, for as long as a frame sounds.
    /// A frame that could not be encoded becomes none.
    pub open spec fn sample(self) -> Option<SampleView> {
        match self.written {
            None => None,
            Some(n) => Some(
                SampleView {
                    data: if n <= self.encbuf.len() {
                        self.encbuf.take(n as int)
                    } else {
                        self.encbuf
                    },
                    duration_ms: FRAME_TIME as u64,
                },
            ),
        }
    }
}

/// A frame that was encoded becomes a sample of 20 milliseconds with as many bytes of
/// the buffer as the encoder has written, from its beginning; one that could not be
/// encoded becomes none.
pub proof fn law_sample_is_what_was_written(encbuf: Seq<u8>, written: usize)
    ensures
        (Encoding { encbuf, written: None }).sample() is None,
        (Encoding { encbuf, written: Some(written) }).sample() matches Some(sample) && {
            &&& sample.duration_ms == 20
            &&& written <= encbuf.len() ==> sample.data == encbuf.take(written as int)
            &&& written > encbuf.len() ==> sample.data == encbuf
        },
{
}

/// The samples that are sent when the frames are encoded one after the other and each
/// sample is sent as soon as it is there.
pub open spec fn sent(encodings: Seq<Encoding>) -> Seq<SampleView>
    decreases encodings.len(),
{
    if encodings.len() == 0 {
        seq![]
    } else {
        let before = sent(encodings.drop_last());
        match encodings.last().sample() {
            None => before,
            Some(sample) => before.push(sample),
        }
    }
}

/// Exactly the frames that could be encoded are sent, each once and in their order; a
/// failure holds none of the others back.
pub proof fn law_encoded_frames_are_sent(encodings: Seq<Encoding>)
    ensures
        sent(encodings) == encodings.filter(|e: Encoding| e.written is Some).map_values(
            |e: Encoding| e.sample()->0,
        ),
    decreases encodings.len(),
{
    let encoded = |e: Encoding| e.written is Some;
    let sample = |e: Encoding| e.sample()->0;
    reveal(Seq::filter);
    if encodings.len() > 0 {
        law_encoded_frames_are_sent(encodings.drop_last());
        let before = encodings.drop_last().filter(encoded);
        if encoded(encodings.last()) {
            assert(before.push(encodings.last()).map_values(sample) =~= before.map_values(
                sample,
            ).push(sample(encodings.last())));
        }
    }
    assert(sent(encodings) =~= encodings.filter(encoded).map_values(sample));
}

/// Decides what to send after a frame was handed to the encoder, given the buffer and
/// how many bytes the encoder reports to have written to it. A frame that could not be
/// encoded is dropped.
pub fn encode_outcome(encbuf: Vec<u8>, written: Option<usize>) -> (sample: Option<Sample>)
    ensures
        sample is Some <==> written is Some,
        match sample {
            Some(s) => (Encoding { encbuf: encbuf@, written }).sample() == Some(s@),
            None => (Encoding { encbuf: encbuf@, written }).sample() is None,
        },
        written matches Some(n) ==> {
            &&& sample matches Some(s)
            &&& s.duration_ms == 20
            &&& n <= encbuf@.len() ==> s.data@ == encbuf@.take(n as int)
            &&& n > encbuf@.len() ==> s.data@ == encbuf@
        },
{
    match written {
        None => None,
        Some(n) => Some(encoded_sample(encbuf, n)),
    }
}

/// Makes a sample of an encoded frame, given the buffer and how many bytes the
/// encoder reports to have written to it.
pub fn encoded_sample(encbuf: Vec<u8>, written: usize) -> (sample: Sample)
    ensures
        sample.data@ == (if written <= encbuf@.len() {
            encbuf@.take(written as int)
        } else {
            encbuf@
        }),
        sample.duration_ms == FRAME_TIME,
        sample.duration_ms == 20,
        sample.duration_ms * SAMPLE_RATE == SEND_FRAME_SIZE * 1000,
{
    let mut data: Vec<u8> = encbuf;
    data.truncate(written);
    Sample { data, duration_ms: FRAME_TIME as u64 }
}

} // verus!
