//! Interleaved PCM sample streams built from quantized levels.
//!
//! A level is the integer a sample was quantized to: 0 to 255 for an 8-bit stream, which
//! holds unsigned samples, and any `i16` for a 16-bit stream, which holds signed ones.
//! The levels come one sequence per channel, indexed by time; the stream holds them frame
//! by frame, and within a frame channel by channel.

use crate::format::{is_supported_bitrate, AudioFormatSpec, ConfigurationError};
use crate::little_endian::{i16_from_le, i16_le, lemma_i16_le_round_trip, push_i16_le};
use vstd::arithmetic::div_mod::lemma_fundamental_div_mod_converse;
use vstd::prelude::*;

verus! {

/// Why no sample stream was produced.
#[derive(Clone, Copy, Debug, PartialEq, Eq, Structural)]
pub enum SynthesisError {
    /// The format description breaks a rule.
    Configuration(ConfigurationError),
    /// There is not one sequence of levels for each channel of the format.
    ChannelCountMismatch,
    /// A channel does not hold one level for each frame of the duration.
    FrameCountMismatch,
    /// A level of an 8-bit stream lies outside 0 to 255.
    LevelOutOfRange,
}

impl SynthesisError {
    /// The text shown to a user for this error.
    pub open spec fn spec_message(&self) -> Seq<char> {
        match self {
            SynthesisError::Configuration(e) => e.spec_message(),
            SynthesisError::ChannelCountMismatch => "Levels do not match the channel count"@,
            SynthesisError::FrameCountMismatch => "Levels do not match the frame count"@,
            SynthesisError::LevelOutOfRange => "Level out of range for 8 bits per sample"@,
        }
    }

    /// The text shown to a user for this error.
    pub fn message(&self) -> (text: String)
        ensures
            text@ == self.spec_message(),
    {
        match self {
            SynthesisError::Configuration(e) => e.message(),
            SynthesisError::ChannelCountMismatch => String::from_str(
                "Levels do not match the channel count",
            ),
            SynthesisError::FrameCountMismatch => String::from_str(
                "Levels do not match the frame count",
            ),
            SynthesisError::LevelOutOfRange => String::from_str(
                "Level out of range for 8 bits per sample",
            ),
        }
    }
}

/// Whether `level` can be stored in a sample of `bits` bits.
pub open spec fn level_fits(level: i16, bits: u16) -> bool {
    bits == 8 ==> 0 <= level <= 255
}

/// The bytes of one sample: the level itself in an 8-bit stream, its two little-endian
/// bytes in two's complement in a 16-bit stream.
pub open spec fn sample_bytes(level: i16, bits: u16) -> Seq<u8> {
    if bits == 8 {
        seq![level as u8]
    } else {
        i16_le(level)
    }
}

/// The level that the bytes of one sample stand for.
pub open spec fn sample_level(bytes: Seq<u8>, bits: u16) -> int {
    if bits == 8 {
        bytes[0] as int
    } else {
        i16_from_le(bytes)
    }
}

/// The levels of each channel as sequences.
pub open spec fn channel_levels(levels: &Vec<Vec<i16>>) -> Seq<Seq<i16>> {
    Seq::new(levels@.len(), |c: int| levels@[c]@)
}

/// Byte `i` of the stream: samples follow each other in time, and within one time index
/// channel by channel, each taking `bits / 8` bytes.
pub open spec fn pcm_byte(levels: Seq<Seq<i16>>, bits: u16, i: int) -> u8 {
    let width = bits as int / 8;
    let channels = levels.len() as int;
    let sample = i / width;
    sample_bytes(levels[sample % channels][sample / channels], bits)[i % width]
}

/// The first `samples` samples of the stream that interleaves `levels`.
pub open spec fn pcm_stream(levels: Seq<Seq<i16>>, bits: u16, samples: int) -> Seq<u8> {
    Seq::new((samples * (bits as int / 8)) as nat, |i: int| pcm_byte(levels, bits, i))
}

/// The sample of channel `c` at time index `t`, cut out of `stream`.
pub open spec fn sample_at(stream: Seq<u8>, channels: int, bits: u16, t: int, c: int) -> Seq<u8> {
    let width = bits as int / 8;
    stream.subrange((t * channels + c) * width, (t * channels + c + 1) * width)
}

/// The first reason for which `secs` seconds in the format `spec` cannot be built from
/// `levels`, if there is one: the format is looked at first, then the number of channels,
/// then their lengths, then the levels.
pub open spec fn synthesis_error(
    secs: u32,
    spec: AudioFormatSpec,
    levels: Seq<Seq<i16>>,
) -> Option<SynthesisError> {
    if spec.configuration_error() is Some {
        Some(SynthesisError::Configuration(spec.configuration_error().unwrap()))
    } else if levels.len() != spec.channel_count {
        Some(SynthesisError::ChannelCountMismatch)
    } else if exists|c: int|
        0 <= c < levels.len() && (#[trigger] levels[c]).len() != spec.spec_frame_count(secs) {
        Some(SynthesisError::FrameCountMismatch)
    } else if exists|c: int, t: int|
        0 <= c < levels.len() && 0 <= t < levels[c].len() && !level_fits(
            #[trigger] levels[c][t],
            spec.bits_per_sample,
        ) {
        Some(SynthesisError::LevelOutOfRange)
    } else {
        None
    }
}

/// Turns one quantized level into the bytes of a sample of `bits_per_sample` bits.
pub fn encode_sample(level: i16, bits_per_sample: u16) -> (result: Result<Vec<u8>, SynthesisError>)
    ensures
        !is_supported_bitrate(bits_per_sample) ==> result == Err::<Vec<u8>, SynthesisError>(
            SynthesisError::Configuration(ConfigurationError::UnsupportedBitsPerSample),
        ),
        is_supported_bitrate(bits_per_sample) && !level_fits(level, bits_per_sample) ==> result
            == Err::<Vec<u8>, SynthesisError>(SynthesisError::LevelOutOfRange),
        is_supported_bitrate(bits_per_sample) && level_fits(level, bits_per_sample) ==> (
        result matches Ok(bytes) && bytes@ == sample_bytes(level, bits_per_sample)),
{
    let mut output: Vec<u8> = Vec::new();
    if bits_per_sample == 8 {
        if level < 0 || level > 255 {
            return Err(SynthesisError::LevelOutOfRange);
        }
        output.push(level as u8);
    } else if bits_per_sample == 16 {
        push_i16_le(&mut output, level);
    } else {
        return Err(SynthesisError::Configuration(ConfigurationError::UnsupportedBitsPerSample));
    }
    Ok(output)
}

/// Appending the sample of channel `c` at time index `t` extends the stream by one sample.
proof fn lemma_stream_step(levels: Seq<Seq<i16>>, bits: u16, t: int, c: int)
    requires
        is_supported_bitrate(bits),
        0 <= t,
        0 <= c < levels.len(),
    ensures
        pcm_stream(levels, bits, t * levels.len() + c + 1) == pcm_stream(
            levels,
            bits,
            t * levels.len() + c,
        ) + sample_bytes(levels[c][t], bits),
{
    let channels = levels.len() as int;
    let width = bits as int / 8;
    let sample = t * channels + c;
    assert(0 <= t * channels && (sample + 1) * width == sample * width + width && 0 <= sample
        * width) by (nonlinear_arith)
        requires
            0 <= t,
            0 <= c < channels,
            sample == t * channels + c,
            1 <= width,
    ;
    lemma_fundamental_div_mod_converse(sample, channels, t, c);
    let shorter = pcm_stream(levels, bits, sample);
    let longer = pcm_stream(levels, bits, sample + 1);
    let added = sample_bytes(levels[c][t], bits);
    assert(added.len() == width);
    assert forall|i: int| 0 <= i < longer.len() implies longer[i] == (shorter + added)[i] by {
        if i >= shorter.len() {
            lemma_fundamental_div_mod_converse(i, width, sample, i - sample * width);
        }
    }
    assert(longer =~= shorter + added);
}

/// In a stream of `frames` frames, the sample of channel `c` at time index `t` is the
/// encoding of that channel's level at `t`, whatever the other channels hold.
pub proof fn lemma_sample_at(levels: Seq<Seq<i16>>, bits: u16, frames: int, t: int, c: int)
    requires
        is_supported_bitrate(bits),
        0 <= t < frames,
        0 <= c < levels.len(),
    ensures
        sample_at(pcm_stream(levels, bits, frames * levels.len()), levels.len() as int, bits, t, c)
            == sample_bytes(levels[c][t], bits),
{
    let channels = levels.len() as int;
    let width = bits as int / 8;
    let sample = t * channels + c;
    assert(0 <= t * channels && sample + 1 <= frames * channels) by (nonlinear_arith)
        requires
            0 <= t < frames,
            0 <= c < channels,
            sample == t * channels + c,
    ;
    assert((sample + 1) * width == sample * width + width && 0 <= sample * width && (sample + 1)
        * width <= frames * channels * width) by (nonlinear_arith)
        requires
            0 <= sample,
            sample + 1 <= frames * channels,
            1 <= width,
    ;
    lemma_stream_step(levels, bits, t, c);
    let whole = pcm_stream(levels, bits, frames * channels);
    let upto = pcm_stream(levels, bits, sample + 1);
    assert(whole.subrange(0, (sample + 1) * width) =~= upto);
    assert(sample_at(whole, channels, bits, t, c) =~= upto.subrange(
        sample * width,
        (sample + 1) * width,
    ));
    assert(upto.subrange(sample * width, (sample + 1) * width) =~= sample_bytes(
        levels[c][t],
        bits,
    ));
}

/// Two sets of levels that agree on channel `c` give streams that agree on every sample
/// of that channel.
pub proof fn lemma_channel_independence(
    first: Seq<Seq<i16>>,
    second: Seq<Seq<i16>>,
    bits: u16,
    frames: int,
    t: int,
    c: int,
)
    requires
        is_supported_bitrate(bits),
        first.len() == second.len(),
        0 <= t < frames,
        0 <= c < first.len(),
        first[c] == second[c],
    ensures
        sample_at(pcm_stream(first, bits, frames * first.len()), first.len() as int, bits, t, c)
            == sample_at(
            pcm_stream(second, bits, frames * second.len()),
            second.len() as int,
            bits,
            t,
            c,
        ),
{
    lemma_sample_at(first, bits, frames, t, c);
    lemma_sample_at(second, bits, frames, t, c);
}

/// A level that fits a sample is read back from the sample's bytes unchanged, and every
/// sample reads as a level of its width's range: 0 to 255 for 8 bits, -32768 to 32767
/// for 16 bits.
pub proof fn lemma_sample_round_trip(level: i16, bits: u16)
    requires
        is_supported_bitrate(bits),
        level_fits(level, bits),
    ensures
        sample_bytes(level, bits).len() == bits / 8,
        sample_level(sample_bytes(level, bits), bits) == level,
        bits == 8 ==> 0 <= sample_level(sample_bytes(level, bits), bits) <= 255,
        bits == 16 ==> -32768 <= sample_level(sample_bytes(level, bits), bits) <= 32767,
{
    lemma_i16_le_round_trip(level);
}

/// Builds the sample stream for `secs` seconds in the format `spec`. `levels` holds, for
/// each channel, the quantized level at each time index; the stream holds them frame by
/// frame, the first channel first. Nothing is built unless the format is valid and the
/// levels have its shape.
pub fn generate_samples(secs: u32, spec: &AudioFormatSpec, levels: &Vec<Vec<i16>>) -> (result:
    Result<Vec<u8>, SynthesisError>)
    ensures
        match synthesis_error(secs, *spec, channel_levels(levels)) {
            Some(e) => result == Err::<Vec<u8>, SynthesisError>(e),
            None => {
                &&& result matches Ok(buffer)
                &&& buffer@ == pcm_stream(
                    channel_levels(levels),
                    spec.bits_per_sample,
                    spec.spec_frame_count(secs) * spec.channel_count,
                )
                &&& buffer@.len() == secs * spec.sample_rate * spec.channel_count * (
                spec.bits_per_sample / 8)
                &&& forall|t: int, c: int|
                    0 <= t < spec.spec_frame_count(secs) && 0 <= c < spec.channel_count ==> {
                        let sample = #[trigger] sample_at(
                            buffer@,
                            spec.channel_count as int,
                            spec.bits_per_sample,
                            t,
                            c,
                        );
                        let level = sample_level(sample, spec.bits_per_sample);
                        &&& sample == sample_bytes(
                            channel_levels(levels)[c][t],
                            spec.bits_per_sample,
                        )
                        &&& level == channel_levels(levels)[c][t]
                        &&& spec.bits_per_sample == 8 ==> 0 <= level <= 255
                        &&& spec.bits_per_sample == 16 ==> -32768 <= level <= 32767
                    }
            },
        },
{
    if let Err(e) = spec.validate() {
        return Err(SynthesisError::Configuration(e));
    }
    let channels: usize = levels.len();
    if channels != spec.channel_count as usize {
        return Err(SynthesisError::ChannelCountMismatch);
    }
    let ghost matrix = channel_levels(levels);
    let frames: u64 = spec.frame_count(secs);
    let mut checked: usize = 0;
    while checked < channels
        invariant
            spec.wf(),
            channels == levels.len(),
            channels == spec.channel_count,
            frames == spec.spec_frame_count(secs),
            matrix == channel_levels(levels),
            checked <= channels,
            forall|c: int| 0 <= c < checked ==> (#[trigger] matrix[c]).len() == frames,
        decreases channels - checked,
    {
        if levels[checked].len() as u64 != frames {
            assert(matrix[checked as int].len() != frames);
            return Err(SynthesisError::FrameCountMismatch);
        }
        checked += 1;
    }

    let bits: u16 = spec.bits_per_sample;
    let frame_total: usize = levels[0].len();
    assert(matrix[0].len() == frame_total);
    let mut buffer: Vec<u8> = Vec::new();
    let mut t: usize = 0;
    while t < frame_total
        invariant
            spec.wf(),
            bits == spec.bits_per_sample,
            channels == levels.len(),
            channels == spec.channel_count,
            frame_total == spec.spec_frame_count(secs),
            matrix == channel_levels(levels),
            forall|c: int| 0 <= c < channels ==> (#[trigger] matrix[c]).len() == frame_total,
            t <= frame_total,
            buffer@ == pcm_stream(matrix, bits, t * channels),
            forall|c: int, k: int|
                0 <= c < channels && 0 <= k < t ==> level_fits(#[trigger] matrix[c][k], bits),
        decreases frame_total - t,
    {
        let mut c: usize = 0;
        while c < channels
            invariant
                spec.wf(),
                bits == spec.bits_per_sample,
                channels == levels.len(),
                channels == spec.channel_count,
                frame_total == spec.spec_frame_count(secs),
                matrix == channel_levels(levels),
                forall|c: int| 0 <= c < channels ==> (#[trigger] matrix[c]).len() == frame_total,
                t < frame_total,
                c <= channels,
                buffer@ == pcm_stream(matrix, bits, t * channels + c),
                forall|j: int| 0 <= j < c ==> level_fits(#[trigger] matrix[j][t as int], bits),
            decreases channels - c,
        {
            assert(matrix[c as int].len() == frame_total);
            let level: i16 = levels[c][t];
            match encode_sample(level, bits) {
                Ok(bytes) => {
                    let mut bytes = bytes;
                    proof {
                        lemma_stream_step(matrix, bits, t as int, c as int);
                    }
                    buffer.append(&mut bytes);
                },
                Err(e) => {
                    assert(!level_fits(matrix[c as int][t as int], bits));
                    return Err(e);
                },
            }
            c += 1;
        }
        assert((t + 1) * channels == t * channels + channels) by (nonlinear_arith);
        t += 1;
    }
    proof {
        let w = bits as int / 8;
        assert(secs * spec.sample_rate * spec.channel_count * w == (frame_total * channels) * w)
            by (nonlinear_arith)
            requires
                frame_total == secs * spec.sample_rate,
                channels == spec.channel_count,
        ;
        assert forall|k: int, c: int| 0 <= k < frame_total && 0 <= c < channels implies {
            let sample = #[trigger] sample_at(buffer@, channels as int, bits, k, c);
            &&& sample == sample_bytes(matrix[c][k], bits)
            &&& sample_level(sample, bits) == matrix[c][k]
        } by {
            lemma_sample_at(matrix, bits, frame_total as int, k, c);
            lemma_sample_round_trip(matrix[c][k], bits);
        }
    }
    Ok(buffer)
}

} // verus!
