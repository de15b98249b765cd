use vstd::prelude::*;

verus! {

/// The two bytes of `x` (below 2^16), least significant first.
pub open spec fn le16(x: nat) -> Seq<u8> {
    seq![(x % 256) as u8, ((x / 256) % 256) as u8]
}

/// The four bytes of `x` (below 2^32), least significant first.
pub open spec fn le32(x: nat) -> Seq<u8> {
    seq![
        (x % 256) as u8,
        ((x / 256) % 256) as u8,
        ((x / 65536) % 256) as u8,
        ((x / 16777216) % 256) as u8,
    ]
}

/// A signed 16-bit sample as two's-complement little-endian bytes.
pub open spec fn sample_bytes(s: i16) -> Seq<u8> {
    if s >= 0 {
        le16(s as nat)
    } else {
        le16((s + 65536) as nat)
    }
}

/// The data chunk's payload: every sample in order.
pub open spec fn pcm_payload(samples: Seq<i16>) -> Seq<u8>
    decreases samples.len(),
{
    if samples.len() == 0 {
        Seq::empty()
    } else {
        pcm_payload(samples.drop_last()) + sample_bytes(samples.last())
    }
}

/// The canonical 44-byte RIFF/WAVE header of a mono, 16-bit integer PCM file
/// at `rate` samples per second whose data chunk holds `data_len` bytes.
pub open spec fn wav_header(rate: nat, data_len: nat) -> Seq<u8> {
    seq![82u8, 73, 70, 70] + le32(36 + data_len) + seq![87u8, 65, 86, 69] + seq![
        102u8,
        109,
        116,
        32,
    ] + le32(16) + le16(1) + le16(1) + le32(rate) + le32(rate * 2) + le16(2) + le16(16)
        + seq![100u8, 97, 116, 97] + le32(data_len)
}

/// The complete mono 16-bit PCM container for `samples` at `rate`.
pub open spec fn wav_file(rate: nat, samples: Seq<i16>) -> Seq<u8> {
    wav_header(rate, 2 * samples.len()) + pcm_payload(samples)
}

/// The most samples a container can hold: its sizes are 32-bit fields.
pub const MAX_WAV_SAMPLES: usize = 2147483629;

/// The highest rate whose byte rate still fits the 32-bit header field.
pub const MAX_WAV_RATE: u32 = 2147483647;

#[verifier::external_type_specification]
#[verifier::external_body]
pub struct ExHoundError(hound::Error);

/// Relies on `hound::WavWriter` (`new`, `write_sample` for `i16`, `finalize`)
/// over an in-memory cursor: for one channel, 16 bits and integer samples it
/// writes the 44-byte PCMWAVEFORMAT header, each sample as two little-endian
/// bytes, then patches the RIFF and data sizes. The writer borrows the cursor
/// for its whole life, so the writes stand together here. The bounds keep
/// hound's 32-bit size and byte-rate arithmetic from overflowing and its
/// block-align division away from zero. Within them hound cannot fail here:
/// 16-bit integer samples are supported, writes and seeks on an in-memory
/// cursor over a `Vec` do not fail, and a mono file never ends on an
/// unfinished sample.
#[verifier::external_body]
fn write_mono_pcm16(samples: &Vec<i16>, sample_rate: u32) -> (r: Result<Vec<u8>, hound::Error>)
    requires
        1 <= sample_rate <= MAX_WAV_RATE,
        samples@.len() <= MAX_WAV_SAMPLES,
    ensures
        r is Ok,
        r matches Ok(bytes) ==> bytes@ == wav_file(sample_rate as nat, samples@),
{
    let mut cursor = std::io::Cursor::new(Vec::new());
    let spec = hound::WavSpec {
        channels: 1,
        sample_rate,
        bits_per_sample: 16,
        sample_format: hound::SampleFormat::Int,
    };
    let mut writer = hound::WavWriter::new(&mut cursor, spec)?;
    for &s in samples.iter() {
        writer.write_sample(s)?;
    }
    writer.finalize()?;
    Ok(cursor.into_inner())
}

/// Why a recording could not be put in the container.
#[derive(Debug, Clone, Copy, PartialEq, Eq)]
pub enum EncodingError {
    /// The rate is zero or its byte rate does not fit the header.
    UnsupportedRate,
    /// More samples than the container's size fields can describe.
    TooLong,
    /// The container writer reported a failure. Within the rate and length
    /// bounds it does not, so `encode_wav` never returns this.
    Writer,
}

/// Whether a container can describe this rate and this many samples.
pub open spec fn encodable(sample_rate: nat, n_samples: nat) -> bool {
    1 <= sample_rate <= MAX_WAV_RATE && n_samples <= MAX_WAV_SAMPLES
}

/// Encodes mono 16-bit samples as a standard PCM container at `sample_rate`.
pub fn encode_wav(samples: &Vec<i16>, sample_rate: u32) -> (r: Result<Vec<u8>, EncodingError>)
    ensures
        sample_rate == 0 || sample_rate > MAX_WAV_RATE <==> r == Err::<
            Vec<u8>,
            EncodingError,
        >(EncodingError::UnsupportedRate),
        1 <= sample_rate <= MAX_WAV_RATE && samples@.len() > MAX_WAV_SAMPLES <==> r == Err::<
            Vec<u8>,
            EncodingError,
        >(EncodingError::TooLong),
        encodable(sample_rate as nat, samples@.len()) <==> r is Ok,
        r matches Ok(bytes) ==> bytes@ == wav_file(sample_rate as nat, samples@),
{
    if sample_rate == 0 || sample_rate > MAX_WAV_RATE {
        return Err(EncodingError::UnsupportedRate);
    }
    if samples.len() > MAX_WAV_SAMPLES {
        return Err(EncodingError::TooLong);
    }
    match write_mono_pcm16(samples, sample_rate) {
        Ok(bytes) => Ok(bytes),
        Err(_) => Err(EncodingError::Writer),
    }
}

} // verus!
