use tonegen::header::{generate_header, HEADER_LEN, MAX_DATA_LEN};
use tonegen::AudioFormatSpec;

fn header_u16(header: &[u8], offset: usize) -> u16 {
    u16::from_le_bytes([header[offset], header[offset + 1]])
}

fn header_u32(header: &[u8], offset: usize) -> u32 {
    u32::from_le_bytes([
        header[offset],
        header[offset + 1],
        header[offset + 2],
        header[offset + 3],
    ])
}

fn every_format() -> Vec<AudioFormatSpec> {
    let mut formats = Vec::new();
    for channel_count in [1u16, 2] {
        for bits_per_sample in [8u16, 16] {
            formats.push(AudioFormatSpec { sample_rate: 44100, channel_count, bits_per_sample });
        }
    }
    formats
}

#[test]
fn header_is_44_bytes_long() {
    for spec in every_format() {
        for len in [0u32, 1, 44100, 5_292_000, MAX_DATA_LEN] {
            assert_eq!(generate_header(&spec, len).len(), 44);
        }
    }
    assert_eq!(HEADER_LEN, 44);
}

#[test]
fn header_carries_the_four_tags() {
    let spec = AudioFormatSpec { sample_rate: 44100, channel_count: 1, bits_per_sample: 8 };
    let header = generate_header(&spec, 44100);
    assert_eq!(&header[0..4], b"RIFF");
    assert_eq!(&header[8..12], b"WAVE");
    assert_eq!(&header[12..16], b"fmt ");
    assert_eq!(&header[36..40], b"data");
}

#[test]
fn header_fields_read_back() {
    for spec in every_format() {
        for len in [0u32, 7, 44100, 88200, 176_400, 5_292_000] {
            let header = generate_header(&spec, len);
            assert_eq!(header_u32(&header, 16), 16);
            assert_eq!(header_u16(&header, 20), 1);
            assert_eq!(header_u16(&header, 22), spec.channel_count);
            assert_eq!(header_u32(&header, 24), spec.sample_rate);
            assert_eq!(header_u16(&header, 34), spec.bits_per_sample);
            assert_eq!(header_u32(&header, 40), len);
        }
    }
}

#[test]
fn chunk_size_is_data_length_plus_36() {
    for spec in every_format() {
        for len in [0u32, 1, 44100, 5_292_000, MAX_DATA_LEN] {
            let header = generate_header(&spec, len);
            assert_eq!(header_u32(&header, 4), 36 + len);
        }
    }
}

#[test]
fn chunk_size_at_the_longest_stream_fills_the_field() {
    let spec = AudioFormatSpec { sample_rate: 44100, channel_count: 2, bits_per_sample: 16 };
    let header = generate_header(&spec, MAX_DATA_LEN);
    assert_eq!(MAX_DATA_LEN, u32::MAX - 36);
    assert_eq!(&header[4..8], &[0xff, 0xff, 0xff, 0xff]);
    assert_eq!(&header[40..44], &[0xdb, 0xff, 0xff, 0xff]);
}

#[test]
fn byte_rate_and_block_align_follow_the_format() {
    let expected =
        [(1u16, 8u16, 44100u32, 1u16), (1, 16, 88200, 2), (2, 8, 88200, 2), (2, 16, 176_400, 4)];
    for (channel_count, bits_per_sample, byte_rate, block_align) in expected {
        let spec = AudioFormatSpec { sample_rate: 44100, channel_count, bits_per_sample };
        let header = generate_header(&spec, 1000);
        assert_eq!(header_u32(&header, 28), byte_rate);
        assert_eq!(
            header_u32(&header, 28),
            spec.sample_rate * u32::from(channel_count) * u32::from(bits_per_sample / 8)
        );
        assert_eq!(header_u16(&header, 32), block_align);
    }
}

#[test]
fn header_of_thirty_stereo_seconds_byte_for_byte() {
    let spec = AudioFormatSpec { sample_rate: 44100, channel_count: 2, bits_per_sample: 16 };
    let header = generate_header(&spec, 5_292_000);
    let expected: [u8; 44] = [
        0x52, 0x49, 0x46, 0x46, // RIFF
        0x04, 0xc0, 0x50, 0x00, // 5292036
        0x57, 0x41, 0x56, 0x45, // WAVE
        0x66, 0x6d, 0x74, 0x20, // fmt
        0x10, 0x00, 0x00, 0x00, // 16
        0x01, 0x00, // PCM
        0x02, 0x00, // stereo
        0x44, 0xac, 0x00, 0x00, // 44100
        0x10, 0xb1, 0x02, 0x00, // 176400
        0x04, 0x00, // block align
        0x10, 0x00, // 16 bits
        0x64, 0x61, 0x74, 0x61, // data
        0xe0, 0xbf, 0x50, 0x00, // 5292000
    ];
    assert_eq!(header, expected.to_vec());
}

#[test]
fn header_of_one_mono_second_byte_for_byte() {
    let spec = AudioFormatSpec { sample_rate: 44100, channel_count: 1, bits_per_sample: 8 };
    let header = generate_header(&spec, 44100);
    let expected: [u8; 44] = [
        b'R', b'I', b'F', b'F', 0x68, 0xac, 0x00, 0x00, b'W', b'A', b'V', b'E', b'f', b'm', b't',
        b' ', 16, 0, 0, 0, 1, 0, 1, 0, 0x44, 0xac, 0, 0, 0x44, 0xac, 0, 0, 1, 0, 8, 0, b'd', b'a',
        b't', b'a', 0x44, 0xac, 0, 0,
    ];
    assert_eq!(header, expected.to_vec());
}
