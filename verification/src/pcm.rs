//! Audio samples as bytes: 16 bits each, the low byte first.

use vstd::prelude::*;

verus! {

/// The sample that a low and a high byte stand for, in two's complement.
pub open spec fn sample_of(low: u8, high: u8) -> i16 {
    if high < 128 {
        (low + 256 * high) as i16
    } else {
        (low + 256 * high - 65536) as i16
    }
}

/// The low byte of a sample.
pub open spec fn low_byte(sample: i16) -> u8 {
    ((sample as int) % 256) as u8
}

/// The high byte of a sample.
pub open spec fn high_byte(sample: i16) -> u8 {
    (((sample as int) / 256) % 256) as u8
}

/// The samples that `bytes` stand for, two bytes each.
pub open spec fn samples_of(bytes: Seq<u8>) -> Seq<i16> {
    Seq::new(bytes.len() / 2, |i: int| sample_of(bytes[2 * i], bytes[2 * i + 1]))
}

/// The bytes of `samples`.
pub open spec fn bytes_of(samples: Seq<i16>) -> Seq<u8> {
    Seq::new(
        (2 * samples.len()) as nat,
        |i: int|
            if i % 2 == 0 {
                low_byte(samples[i / 2])
            } else {
                high_byte(samples[i / 2])
            },
    )
}

/// A sample is the number that its two bytes give, the low byte first, in two's
/// complement: from 128 on, the high byte stands for a negative number.
pub proof fn law_samples_are_little_endian(bytes: Seq<u8>, i: int)
    requires
        0 <= i < bytes.len() / 2,
    ensures
        samples_of(bytes).len() == bytes.len() / 2,
        bytes[2 * i + 1] < 128 ==> samples_of(bytes)[i] as int == bytes[2 * i] as int + 256
            * bytes[2 * i + 1] as int,
        bytes[2 * i + 1] >= 128 ==> samples_of(bytes)[i] as int == bytes[2 * i] as int + 256
            * bytes[2 * i + 1] as int - 65536,
{
}

/// The two bytes of a sample give its number, the low byte first; a negative number is
/// written as what is left of 65536.
pub proof fn law_bytes_are_little_endian(samples: Seq<i16>, i: int)
    requires
        0 <= i < samples.len(),
    ensures
        bytes_of(samples).len() == 2 * samples.len(),
        samples[i] >= 0 ==> bytes_of(samples)[2 * i] as int + 256 * bytes_of(samples)[2 * i
            + 1] as int == samples[i] as int,
        samples[i] < 0 ==> bytes_of(samples)[2 * i] as int + 256 * bytes_of(samples)[2 * i
            + 1] as int == samples[i] as int + 65536,
{
}

/// Samples that are written as bytes are read back unchanged.
pub proof fn law_samples_survive_bytes(samples: Seq<i16>)
    ensures
        samples_of(bytes_of(samples)) == samples,
{
    assert(samples_of(bytes_of(samples)) =~= samples);
}

/// An even number of bytes that is read as samples is written back unchanged.
pub proof fn law_bytes_survive_samples(bytes: Seq<u8>)
    requires
        bytes.len() % 2 == 0,
    ensures
        bytes_of(samples_of(bytes)) == bytes,
{
    assert(bytes_of(samples_of(bytes)) =~= bytes);
}

/// Reads the samples that the bytes stand for; an odd last byte is left out.
pub fn samples_from_bytes(bytes: &[u8]) -> (samples: Vec<i16>)
    ensures
        samples@ == samples_of(bytes@),
        samples@.len() == bytes@.len() / 2,
        forall|i: int|
            0 <= i < samples@.len() ==> #[trigger] samples@[i] as int == bytes@[2 * i] as int + 256
                * bytes@[2 * i + 1] as int - (if bytes@[2 * i + 1] < 128 {
                0int
            } else {
                65536int
            }),
{
    let mut samples: Vec<i16> = Vec::new();
    let count: usize = bytes.len() / 2;
    let mut i: usize = 0;
    while i < count
        invariant
            i <= count,
            count == bytes.len() / 2,
            bytes.len() == bytes@.len(),
            samples@ == samples_of(bytes@).take(i as int),
        decreases count - i,
    {
        let unsigned: i32 = bytes[2 * i] as i32 + 256 * (bytes[2 * i + 1] as i32);
        let sample: i16 = if unsigned < 32768 {
            unsigned as i16
        } else {
            (unsigned - 65536) as i16
        };
        samples.push(sample);
        i = i + 1;
        assert(samples@ =~= samples_of(bytes@).take(i as int));
    }
    assert(samples_of(bytes@).take(count as int) =~= samples_of(bytes@));
    samples
}

/// Writes the samples as bytes.
pub fn samples_to_bytes(samples: &[i16]) -> (bytes: Vec<u8>)
    ensures
        bytes@ == bytes_of(samples@),
        bytes@.len() == 2 * samples@.len(),
        forall|i: int|
            0 <= i < samples@.len() ==> bytes@[2 * i] as int + 256 * bytes@[2 * i + 1] as int
                == #[trigger] samples@[i] as int + (if samples@[i] < 0 {
                65536int
            } else {
                0int
            }),
{
    let mut bytes: Vec<u8> = Vec::new();
    let mut i: usize = 0;
    while i < samples.len()
        invariant
            i <= samples@.len(),
            bytes@ == bytes_of(samples@).take(2 * i),
        decreases samples@.len() - i,
    {
        let signed: i32 = samples[i] as i32;
        let unsigned: i32 = if signed < 0 {
            signed + 65536
        } else {
            signed
        };
        bytes.push((unsigned % 256) as u8);
        bytes.push((unsigned / 256) as u8);
        i = i + 1;
        assert(bytes@ =~= bytes_of(samples@).take(2 * i));
    }
    assert(bytes_of(samples@).take(2 * samples@.len() as int) =~= bytes_of(samples@));
    bytes
}

} // verus!
