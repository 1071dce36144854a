use vstd::prelude::*;

verus! {

/// The signed 16-bit sample whose little-endian encoding is `lo`, `hi`:
/// the number `hi * 256 + lo`, read as two's complement.
pub open spec fn sample_of(lo: u8, hi: u8) -> i16 {
    let unsigned = hi as int * 256 + lo as int;
    if unsigned < 32768 {
        unsigned as i16
    } else {
        (unsigned - 65536) as i16
    }
}

/// The low byte of a sample's little-endian encoding.
pub open spec fn low_byte(sample: i16) -> u8 {
    (sample as int % 256) as u8
}

/// The high byte of a sample's little-endian encoding.
pub open spec fn high_byte(sample: i16) -> u8 {
    ((sample as int / 256) % 256) as u8
}

/// The samples held by the region of `bytes` that starts at `offset` and is
/// `length` bytes long: one sample for each whole pair of bytes, low byte
/// first. A trailing single byte belongs to no sample.
pub open spec fn pcm_region_samples(bytes: Seq<u8>, offset: int, length: int) -> Seq<i16> {
    Seq::new(
        (length / 2) as nat,
        |i: int| sample_of(bytes[offset + 2 * i], bytes[offset + 2 * i + 1]),
    )
}

/// The samples held by a whole PCM buffer.
pub open spec fn samples_of(bytes: Seq<u8>) -> Seq<i16> {
    pcm_region_samples(bytes, 0, bytes.len() as int)
}

/// The PCM buffer that holds `samples`: two bytes per sample, low byte first.
pub open spec fn pcm_of(samples: Seq<i16>) -> Seq<u8> {
    Seq::new(
        2 * samples.len(),
        |j: int|
            if j % 2 == 0 {
                low_byte(samples[j / 2])
            } else {
                high_byte(samples[j / 2])
            },
    )
}

fn join_sample(lo: u8, hi: u8) -> (sample: i16)
    ensures
        sample == sample_of(lo, hi),
{
    let sample: i16 = (hi as i16) << 8 | (lo as i16);
    assert(((hi as i16) << 8 | (lo as i16)) == sample_of(lo, hi)) by (bit_vector);
    sample
}

fn split_sample(sample: i16) -> (bytes: (u8, u8))
    ensures
        bytes.0 == low_byte(sample),
        bytes.1 == high_byte(sample),
{
    let lo: u8 = (sample & 0xFF) as u8;
    let hi: u8 = ((sample >> 8) & 0xFF) as u8;
    assert((sample & 0xFF) as u8 == low_byte(sample)) by (bit_vector);
    assert(((sample >> 8) & 0xFF) as u8 == high_byte(sample)) by (bit_vector);
    (lo, hi)
}

/// Reads the samples of the region of `buffer` that starts at `offset` and is
/// `length` bytes long. Only the whole pairs of the region have to lie inside
/// the buffer.
pub fn pcm_to_samples(buffer: &Vec<u8>, offset: usize, length: usize) -> (samples: Vec<i16>)
    requires
        offset + 2 * (length / 2) <= buffer.len(),
    ensures
        samples@ == pcm_region_samples(buffer@, offset as int, length as int),
        samples.len() == length / 2,
{
    let count: usize = length / 2;
    let mut samples: Vec<i16> = Vec::with_capacity(count);
    let mut i: usize = 0;
    while i < count
        invariant
            i <= count,
            offset + 2 * count <= buffer.len(),
            samples@ == pcm_region_samples(buffer@, offset as int, 2 * i as int),
        decreases count - i,
    {
        let index: usize = offset + 2 * i;
        let sample = join_sample(buffer[index], buffer[index + 1]);
        samples.push(sample);
        i += 1;
        assert(samples@ =~= pcm_region_samples(buffer@, offset as int, 2 * i as int));
    }
    assert(samples@ =~= pcm_region_samples(buffer@, offset as int, length as int));
    samples
}

/// Writes the first `count` samples as PCM bytes.
pub fn samples_to_pcm(samples: &Vec<i16>, count: usize) -> (bytes: Vec<u8>)
    requires
        count <= samples.len(),
    ensures
        bytes@ == pcm_of(samples@.take(count as int)),
        bytes.len() == 2 * count,
{
    let mut bytes: Vec<u8> = Vec::new();
    let mut i: usize = 0;
    while i < count
        invariant
            i <= count <= samples.len(),
            bytes@ == pcm_of(samples@.take(i as int)),
        decreases count - i,
    {
        let (lo, hi) = split_sample(samples[i]);
        bytes.push(lo);
        bytes.push(hi);
        i += 1;
        assert(bytes@ =~= pcm_of(samples@.take(i as int)));
    }
    bytes
}

/// Splitting a sample into its two bytes and joining them again gives the
/// sample back.
pub proof fn lemma_sample_round_trip(sample: i16)
    ensures
        sample_of(low_byte(sample), high_byte(sample)) == sample,
{
}

/// Joining two bytes into a sample and splitting it again gives the bytes
/// back.
pub proof fn lemma_byte_pair_round_trip(lo: u8, hi: u8)
    ensures
        low_byte(sample_of(lo, hi)) == lo,
        high_byte(sample_of(lo, hi)) == hi,
{
}

/// Writing samples as PCM and reading the buffer back gives the same samples.
pub proof fn lemma_pcm_round_trip(samples: Seq<i16>)
    ensures
        samples_of(pcm_of(samples)) == samples,
{
    let bytes = pcm_of(samples);
    assert forall|i: int| 0 <= i < samples.len() implies #[trigger] samples_of(bytes)[i]
        == samples[i] by {
        lemma_sample_round_trip(samples[i]);
    }
    assert(samples_of(bytes) =~= samples);
}

/// Reading a buffer of even length as samples and writing them as PCM gives
/// the same buffer.
pub proof fn lemma_samples_round_trip(bytes: Seq<u8>)
    requires
        bytes.len() % 2 == 0,
    ensures
        pcm_of(samples_of(bytes)) == bytes,
{
    let samples = samples_of(bytes);
    assert forall|j: int| 0 <= j < bytes.len() implies #[trigger] pcm_of(samples)[j]
        == bytes[j] by {
        let i = j / 2;
        lemma_byte_pair_round_trip(bytes[2 * i], bytes[2 * i + 1]);
    }
    assert(pcm_of(samples) =~= bytes);
}

/// A region of odd length holds the samples of the region one byte shorter:
/// the last byte is left out.
pub proof fn lemma_odd_length_drops_last_byte(bytes: Seq<u8>, offset: int, length: int)
    requires
        length >= 0,
        length % 2 == 1,
    ensures
        pcm_region_samples(bytes, offset, length) == pcm_region_samples(bytes, offset, length - 1),
        pcm_region_samples(bytes, offset, length).len() == (length - 1) / 2,
{
    assert(pcm_region_samples(bytes, offset, length) =~= pcm_region_samples(
        bytes,
        offset,
        length - 1,
    ));
}

} // verus!
