//! From quantized samples to an audio file.
//!
//! The impulse response is written as PCM audio: 44100 samples per second,
//! sixteen bits per sample, the configured number of channels, the samples of
//! the channels interleaved. The bytes of the file come from the `hound` crate.

use vstd::prelude::*;
use std::io::Cursor;
use hound::{SampleFormat, WavSpec, WavWriter};

verus! {

/// The number of samples per second of every audio file.
pub const SAMPLE_RATE: u32 = 44100;

/// The number of bits of one sample.
pub const BITS_PER_SAMPLE: u16 = 16;

/// The properties of an audio file of integer samples.
#[derive(Clone, Copy, Debug, PartialEq, Eq, Structural)]
pub struct WavFormat {
    pub channels: u16,
    pub sample_rate: u32,
    pub bits_per_sample: u16,
}

/// Why no audio file is made.
#[derive(Clone, Copy, Debug, PartialEq, Eq, Structural)]
pub enum AudioError {
    /// The file would have no channel.
    NoChannels,
    /// The number of bytes per second does not fit the 32 bits that the
    /// file format has for it.
    TooManyChannels,
    /// The size of the file does not fit the 32 bits that the file format has
    /// for it.
    TooLong,
    /// The encoder refused the samples.
    EncodingFailed,
}

/// The number of bytes of a file that do not count towards the size written
/// in it: the format description, which is longer for more than two channels,
/// and the heading of the data.
pub open spec fn overhead_of(channels: u16) -> nat {
    if channels > 2 {
        60
    } else {
        36
    }
}

/// The number of bytes that stand before the first sample in a file.
pub open spec fn header_len(channels: u16) -> nat {
    overhead_of(channels) + 8
}

/// The less significant byte of a sample in two's complement.
pub open spec fn low_byte(sample: i16) -> u8 {
    ((sample as int) % 256) as u8
}

/// The more significant byte of a sample in two's complement.
pub open spec fn high_byte(sample: i16) -> u8 {
    (((sample as int) / 256) % 256) as u8
}

/// The samples as they stand in a file: two bytes each, the less significant
/// first, in the order of the samples.
pub open spec fn sample_bytes(samples: Seq<i16>) -> Seq<u8> {
    Seq::new(
        2 * samples.len(),
        |i: int|
            if i % 2 == 0 {
                low_byte(samples[i / 2])
            } else {
                high_byte(samples[i / 2])
            },
    )
}

/// Whether some bytes are a header of the length that the channel count asks
/// for, followed by the samples and nothing else.
pub open spec fn holds_samples(bytes: Seq<u8>, channels: u16, samples: Seq<i16>) -> bool {
    &&& bytes.len() == header_len(channels) + 2 * samples.len()
    &&& bytes.skip(header_len(channels) as int) == sample_bytes(samples)
}

/// The number of bytes per second of sixteen-bit audio.
pub open spec fn byte_rate(format: WavFormat) -> nat {
    (format.sample_rate as nat) * 2 * (format.channels as nat)
}

/// Whether the encoder can be run on `len` samples in a format without
/// leaving the 32 bits of its counters or dividing by zero.
pub open spec fn encodable(format: WavFormat, len: nat) -> bool {
    &&& format.bits_per_sample == 16
    &&& format.channels >= 1
    &&& format.sample_rate >= 1
    &&& byte_rate(format) <= u32::MAX
    &&& 2 * len + overhead_of(format.channels) <= u32::MAX
}

/// The format of the audio files of this library with a number of channels.
pub open spec fn format_of(channels: u16) -> WavFormat {
    WavFormat { channels, sample_rate: SAMPLE_RATE, bits_per_sample: BITS_PER_SAMPLE }
}

/// The reason for which `len` samples in `channels` channels give no file, if
/// there is one. The channels are examined before the length.
pub open spec fn audio_defect(channels: u16, len: nat) -> Option<AudioError> {
    if channels == 0 {
        Some(AudioError::NoChannels)
    } else if byte_rate(format_of(channels)) > u32::MAX {
        Some(AudioError::TooManyChannels)
    } else if 2 * len + overhead_of(channels) > u32::MAX {
        Some(AudioError::TooLong)
    } else {
        None
    }
}

/// The bytes of the WAVE file that `hound` makes of integer samples in a
/// format.
pub uninterp spec fn wav_encoding(
    channels: u16,
    sample_rate: u32,
    bits_per_sample: u16,
    samples: Seq<i16>,
) -> Seq<u8>;

/// Whether the samples fill their last frame: there is one for every channel.
pub open spec fn frames_complete(channels: u16, len: nat) -> bool {
    channels > 0 && len % (channels as nat) == 0
}

/// Writes samples with `hound`: `WavWriter::new` on an empty in-memory cursor,
/// `write_sample` for each sample in order, then `finalize`. It hands back the
/// bytes left in the cursor, and whether `finalize` was content. The contract
/// claims that on what `encodable` admits `new` and `write_sample` succeed; that
/// the bytes depend on the format and the samples alone; that `hound` writes a
/// header of 44 bytes for up to two channels and of 68 bytes beyond, and then
/// each sample as two bytes, the less significant first; and that `finalize`
/// complains exactly where the last frame lacks channels, after it has written
/// everything. It claims nothing about what the header holds. `hound` counts
/// bytes in 32 bits and divides by the sample rate and the channel count, so
/// only what `encodable` admits is let in.
#[verifier::external_body]
fn wav_encode(format: WavFormat, samples: &Vec<i16>) -> (r: Option<(Vec<u8>, bool)>)
    requires
        encodable(format, samples@.len()),
    ensures
        r is Some,
        r->Some_0.0@ == wav_encoding(
            format.channels,
            format.sample_rate,
            format.bits_per_sample,
            samples@,
        ),
        holds_samples(r->Some_0.0@, format.channels, samples@),
        r->Some_0.1 == frames_complete(format.channels, samples@.len()),
{
    let spec = WavSpec {
        channels: format.channels,
        sample_rate: format.sample_rate,
        bits_per_sample: format.bits_per_sample,
        sample_format: SampleFormat::Int,
    };
    let mut cursor = Cursor::new(Vec::new());
    let mut writer = WavWriter::new(&mut cursor, spec).ok()?;
    for sample in samples.iter() {
        writer.write_sample(*sample).ok()?;
    }
    let content = writer.finalize().is_ok();
    Some((cursor.into_inner(), content))
}

/// Turns what the encoder handed back into the result of the library. A file
/// whose last frame lacks channels is kept: every sample stands in it.
pub fn wav_outcome(encoded: Option<(Vec<u8>, bool)>) -> (r: Result<Vec<u8>, AudioError>)
    ensures
        match encoded {
            Some(written) => r == Ok::<Vec<u8>, AudioError>(written.0),
            None => r == Err::<Vec<u8>, AudioError>(AudioError::EncodingFailed),
        },
{
    match encoded {
        Some(written) => Ok(written.0),
        None => Err(AudioError::EncodingFailed),
    }
}

/// What `encode_wav` returns, as the view of its result: the defect of the
/// samples if they have one, and the bytes of the encoder in every other case.
pub open spec fn wav_of(channels: u16, samples: Seq<i16>) -> Result<Seq<u8>, AudioError> {
    match audio_defect(channels, samples.len()) {
        Some(e) => Err(e),
        None => Ok(wav_encoding(channels, SAMPLE_RATE, BITS_PER_SAMPLE, samples)),
    }
}

/// Checks whether samples in a number of channels can be handed to the
/// encoder.
pub fn check_audio(channels: u16, len: usize) -> (r: Result<WavFormat, AudioError>)
    ensures
        match audio_defect(channels, len as nat) {
            Some(e) => r == Err::<WavFormat, AudioError>(e),
            None => r == Ok::<WavFormat, AudioError>(format_of(channels)) && encodable(
                format_of(channels),
                len as nat,
            ),
        },
{
    if channels == 0 {
        return Err(AudioError::NoChannels);
    }
    let limit: u64 = 0xFFFF_FFFF;
    let per_channel: u64 = (SAMPLE_RATE as u64) * 2;
    assert(per_channel * channels <= 88200 * 0xFFFF) by (nonlinear_arith)
        requires
            per_channel == 88200,
            channels <= 0xFFFF,
    ;
    let rate: u64 = per_channel * (channels as u64);
    if rate > limit {
        return Err(AudioError::TooManyChannels);
    }
    let overhead: u64 = if channels > 2 {
        60
    } else {
        36
    };
    let room: u64 = (limit - overhead) / 2;
    if len as u64 > room {
        return Err(AudioError::TooLong);
    }
    Ok(WavFormat { channels, sample_rate: SAMPLE_RATE, bits_per_sample: BITS_PER_SAMPLE })
}

/// Whether `r` is what `encode_wav` owes for samples in a number of channels.
pub open spec fn is_wav_of(r: Result<Vec<u8>, AudioError>, channels: u16, samples: Seq<i16>) -> bool {
    match wav_of(channels, samples) {
        Ok(bytes) => r is Ok && r->Ok_0@ == bytes,
        Err(e) => r == Err::<Vec<u8>, AudioError>(e),
    }
}

/// Makes the audio file of an impulse response: the bytes that the encoder
/// gives for the samples, in the format of this library with the given number
/// of channels. Samples that the encoder cannot take are refused before it is
/// asked.
pub fn encode_wav(channels: u16, samples: &Vec<i16>) -> (r: Result<Vec<u8>, AudioError>)
    ensures
        is_wav_of(r, channels, samples@),
        r is Ok ==> holds_samples(r->Ok_0@, channels, samples@),
{
    match check_audio(channels, samples.len()) {
        Ok(format) => wav_outcome(wav_encode(format, samples)),
        Err(e) => Err(e),
    }
}

/// Proves that making an audio file again gives the same file: two results
/// that `encode_wav` owes for the same samples and channel count fail alike or
/// hold the same bytes.
pub proof fn lemma_wav_repeatable(
    first: Result<Vec<u8>, AudioError>,
    second: Result<Vec<u8>, AudioError>,
    channels: u16,
    samples: Seq<i16>,
)
    requires
        is_wav_of(first, channels, samples),
        is_wav_of(second, channels, samples),
    ensures
        first is Ok <==> second is Ok,
        first is Ok ==> first->Ok_0@ == second->Ok_0@,
        first is Err ==> first->Err_0 == second->Err_0,
{
}

/// Proves on which inputs an audio file is made: there is a channel, the bytes
/// of a second can be counted in 32 bits, and so can the bytes of the file.
pub proof fn lemma_wav_success(channels: u16, samples: Seq<i16>)
    ensures
        wav_of(channels, samples) is Ok <==> (channels >= 1 && byte_rate(format_of(channels))
            <= u32::MAX && 2 * samples.len() + overhead_of(channels) <= u32::MAX),
{
}

/// Proves that silence is written as zeros: where every sample is zero, so is
/// every byte that stands for a sample, and there are two of them per sample.
pub proof fn lemma_silence_is_zeros(samples: Seq<i16>)
    requires
        forall|k: int| 0 <= k < samples.len() ==> samples[k] == 0,
    ensures
        sample_bytes(samples) == Seq::new(2 * samples.len(), |i: int| 0u8),
{
    assert(sample_bytes(samples) =~= Seq::new(2 * samples.len(), |i: int| 0u8));
}

/// Proves that a sample can be read back from its two bytes, so that
/// different samples never stand as the same bytes.
pub proof fn lemma_bytes_hold_sample(sample: i16)
    ensures
        sample >= 0 ==> sample == low_byte(sample) + 256 * high_byte(sample),
        sample < 0 ==> sample == low_byte(sample) + 256 * high_byte(sample) - 65536,
{
}

} // verus!
