//! The 44-byte RIFF/WAVE header that precedes a PCM sample stream.
//!
//! Every multi-byte field is little-endian, as the container format lays down.

use crate::format::AudioFormatSpec;
use crate::little_endian::{
    lemma_u16_le_round_trip, lemma_u32_le_round_trip, push_u16_le, push_u32_le, u16_from_le,
    u16_le, u32_from_le, u32_le,
};
use vstd::prelude::*;

verus! {

/// Length of the header in bytes.
pub const HEADER_LEN: usize = 44;

/// Size of the format sub-chunk's body for PCM.
pub const FORMAT_CHUNK_SIZE: u32 = 16;

/// The audio format code of uncompressed PCM.
pub const AUDIO_FORMAT_PCM: u16 = 1;

/// The longest sample stream whose chunk size, 36 more than its own length, still fits the
/// header's 32-bit field.
pub const MAX_DATA_LEN: u32 = 4294967259;

/// The four ASCII bytes of a chunk tag.
pub open spec fn tag(a: char, b: char, c: char, d: char) -> Seq<u8> {
    seq![a as u8, b as u8, c as u8, d as u8]
}

/// The header for a stream of `data_byte_length` bytes in the format `spec`, field by field.
pub open spec fn header_bytes(spec: AudioFormatSpec, data_byte_length: u32) -> Seq<u8> {
    tag('R', 'I', 'F', 'F')
        + u32_le((4 + (8 + FORMAT_CHUNK_SIZE) + (8 + data_byte_length)) as u32)
        + tag('W', 'A', 'V', 'E')
        + tag('f', 'm', 't', ' ')
        + u32_le(FORMAT_CHUNK_SIZE)
        + u16_le(AUDIO_FORMAT_PCM)
        + u16_le(spec.channel_count)
        + u32_le(spec.sample_rate)
        + u32_le(spec.spec_byte_rate() as u32)
        + u16_le(spec.spec_block_align() as u16)
        + u16_le(spec.bits_per_sample)
        + tag('d', 'a', 't', 'a')
        + u32_le(data_byte_length)
}

/// What a reader of the container finds in a header: each field decoded at its offset.
pub struct HeaderFields {
    pub riff_tag: Seq<u8>,
    pub chunk_size: int,
    pub wave_tag: Seq<u8>,
    pub format_tag: Seq<u8>,
    pub format_chunk_size: int,
    pub audio_format: int,
    pub channel_count: int,
    pub sample_rate: int,
    pub byte_rate: int,
    pub block_align: int,
    pub bits_per_sample: int,
    pub data_tag: Seq<u8>,
    pub data_byte_length: int,
}

/// Decodes the fields of a 44-byte header.
pub open spec fn read_header(header: Seq<u8>) -> HeaderFields {
    HeaderFields {
        riff_tag: header.subrange(0, 4),
        chunk_size: u32_from_le(header.subrange(4, 8)),
        wave_tag: header.subrange(8, 12),
        format_tag: header.subrange(12, 16),
        format_chunk_size: u32_from_le(header.subrange(16, 20)),
        audio_format: u16_from_le(header.subrange(20, 22)),
        channel_count: u16_from_le(header.subrange(22, 24)),
        sample_rate: u32_from_le(header.subrange(24, 28)),
        byte_rate: u32_from_le(header.subrange(28, 32)),
        block_align: u16_from_le(header.subrange(32, 34)),
        bits_per_sample: u16_from_le(header.subrange(34, 36)),
        data_tag: header.subrange(36, 40),
        data_byte_length: u32_from_le(header.subrange(40, 44)),
    }
}

/// Each field of a header lies at its offset: the layout of thirteen fields of the header's
/// widths, laid end to end.
proof fn lemma_field_offsets(
    riff: Seq<u8>,
    chunk_size: Seq<u8>,
    wave: Seq<u8>,
    fmt: Seq<u8>,
    format_chunk_size: Seq<u8>,
    audio_format: Seq<u8>,
    channel_count: Seq<u8>,
    sample_rate: Seq<u8>,
    byte_rate: Seq<u8>,
    block_align: Seq<u8>,
    bits_per_sample: Seq<u8>,
    data: Seq<u8>,
    data_byte_length: Seq<u8>,
)
    requires
        riff.len() == 4,
        chunk_size.len() == 4,
        wave.len() == 4,
        fmt.len() == 4,
        format_chunk_size.len() == 4,
        audio_format.len() == 2,
        channel_count.len() == 2,
        sample_rate.len() == 4,
        byte_rate.len() == 4,
        block_align.len() == 2,
        bits_per_sample.len() == 2,
        data.len() == 4,
        data_byte_length.len() == 4,
    ensures
        ({
            let header = riff + chunk_size + wave + fmt + format_chunk_size + audio_format
                + channel_count + sample_rate + byte_rate + block_align + bits_per_sample + data
                + data_byte_length;
            &&& header.len() == 44
            &&& header.subrange(0, 4) == riff
            &&& header.subrange(4, 8) == chunk_size
            &&& header.subrange(8, 12) == wave
            &&& header.subrange(12, 16) == fmt
            &&& header.subrange(16, 20) == format_chunk_size
            &&& header.subrange(20, 22) == audio_format
            &&& header.subrange(22, 24) == channel_count
            &&& header.subrange(24, 28) == sample_rate
            &&& header.subrange(28, 32) == byte_rate
            &&& header.subrange(32, 34) == block_align
            &&& header.subrange(34, 36) == bits_per_sample
            &&& header.subrange(36, 40) == data
            &&& header.subrange(40, 44) == data_byte_length
        }),
{
}

/// Decoding the header written for `spec` and `data_byte_length` gives back the format's
/// channel count, sample rate and sample width and the data length, with the chunk size 36
/// more than the data length and the byte rate the product of sample rate, channel count
/// and bytes per sample.
pub proof fn lemma_header_round_trip(spec: AudioFormatSpec, data_byte_length: u32)
    requires
        spec.wf(),
        data_byte_length <= MAX_DATA_LEN,
    ensures
        header_bytes(spec, data_byte_length).len() == HEADER_LEN,
        read_header(header_bytes(spec, data_byte_length)) == (HeaderFields {
            riff_tag: tag('R', 'I', 'F', 'F'),
            chunk_size: 36 + data_byte_length,
            wave_tag: tag('W', 'A', 'V', 'E'),
            format_tag: tag('f', 'm', 't', ' '),
            format_chunk_size: 16,
            audio_format: 1,
            channel_count: spec.channel_count as int,
            sample_rate: spec.sample_rate as int,
            byte_rate: spec.sample_rate * spec.channel_count * (spec.bits_per_sample / 8),
            block_align: spec.channel_count * (spec.bits_per_sample / 8),
            bits_per_sample: spec.bits_per_sample as int,
            data_tag: tag('d', 'a', 't', 'a'),
            data_byte_length: data_byte_length as int,
        }),
{
    let chunk_size = (4 + (8 + FORMAT_CHUNK_SIZE) + (8 + data_byte_length)) as u32;
    let byte_rate = spec.spec_byte_rate() as u32;
    let block_align = spec.spec_block_align() as u16;
    lemma_field_offsets(
        tag('R', 'I', 'F', 'F'),
        u32_le(chunk_size),
        tag('W', 'A', 'V', 'E'),
        tag('f', 'm', 't', ' '),
        u32_le(FORMAT_CHUNK_SIZE),
        u16_le(AUDIO_FORMAT_PCM),
        u16_le(spec.channel_count),
        u32_le(spec.sample_rate),
        u32_le(byte_rate),
        u16_le(block_align),
        u16_le(spec.bits_per_sample),
        tag('d', 'a', 't', 'a'),
        u32_le(data_byte_length),
    );
    lemma_u32_le_round_trip(chunk_size);
    lemma_u32_le_round_trip(FORMAT_CHUNK_SIZE);
    lemma_u16_le_round_trip(AUDIO_FORMAT_PCM);
    lemma_u16_le_round_trip(spec.channel_count);
    lemma_u32_le_round_trip(spec.sample_rate);
    lemma_u32_le_round_trip(byte_rate);
    lemma_u16_le_round_trip(block_align);
    lemma_u16_le_round_trip(spec.bits_per_sample);
    lemma_u32_le_round_trip(data_byte_length);
    spec.lemma_sizes(0);
}

/// Builds the header for a sample stream of `data_byte_length` bytes in the format `spec`.
/// The format is taken as it is, so it has to be well formed, and the stream short enough
/// for the chunk size to fit its field.
pub fn generate_header(spec: &AudioFormatSpec, data_byte_length: u32) -> (header: Vec<u8>)
    requires
        spec.wf(),
        data_byte_length <= MAX_DATA_LEN,
    ensures
        header@ == header_bytes(*spec, data_byte_length),
        header@.len() == HEADER_LEN,
        read_header(header@).chunk_size == 36 + data_byte_length,
        read_header(header@).channel_count == spec.channel_count,
        read_header(header@).sample_rate == spec.sample_rate,
        read_header(header@).byte_rate == spec.sample_rate * spec.channel_count * (
        spec.bits_per_sample / 8),
        read_header(header@).block_align == spec.channel_count * (spec.bits_per_sample / 8),
        read_header(header@).bits_per_sample == spec.bits_per_sample,
        read_header(header@).data_byte_length == data_byte_length,
{
    let mut buffer: Vec<u8> = Vec::with_capacity(HEADER_LEN);

    let chunk_size: u32 = 4 + (8 + FORMAT_CHUNK_SIZE) + (8 + data_byte_length);
    buffer.extend_from_slice(&['R' as u8, 'I' as u8, 'F' as u8, 'F' as u8]);
    push_u32_le(&mut buffer, chunk_size);
    buffer.extend_from_slice(&['W' as u8, 'A' as u8, 'V' as u8, 'E' as u8]);

    buffer.extend_from_slice(&['f' as u8, 'm' as u8, 't' as u8, ' ' as u8]);
    push_u32_le(&mut buffer, FORMAT_CHUNK_SIZE);
    push_u16_le(&mut buffer, AUDIO_FORMAT_PCM);
    push_u16_le(&mut buffer, spec.channel_count);
    push_u32_le(&mut buffer, spec.sample_rate);
    push_u32_le(&mut buffer, spec.byte_rate());
    push_u16_le(&mut buffer, spec.block_align());
    push_u16_le(&mut buffer, spec.bits_per_sample);

    buffer.extend_from_slice(&['d' as u8, 'a' as u8, 't' as u8, 'a' as u8]);
    push_u32_le(&mut buffer, data_byte_length);

    proof {
        assert(buffer@ =~= header_bytes(*spec, data_byte_length));
        lemma_header_round_trip(*spec, data_byte_length);
    }
    buffer
}

} // verus!
