use std::io::Cursor;

use hound::{SampleFormat, WavReader};
use tonegen::{generate_wav, AudioFormatSpec};

fn ramp(frames: usize, bits_per_sample: u16, start: i32) -> Vec<i16> {
    (0..frames)
        .map(|t| {
            let value = start + 7 * t as i32;
            if bits_per_sample == 8 {
                value.rem_euclid(256) as i16
            } else {
                (value.rem_euclid(65536) - 32768) as i16
            }
        })
        .collect()
}

#[test]
fn container_reader_reports_the_format() {
    for (channel_count, bits_per_sample) in [(1u16, 8u16), (1, 16), (2, 8), (2, 16)] {
        let spec = AudioFormatSpec { sample_rate: 44100, channel_count, bits_per_sample };
        let levels: Vec<Vec<i16>> =
            (0..channel_count).map(|c| ramp(44100, bits_per_sample, 1000 * i32::from(c))).collect();
        let file = generate_wav(1, &spec, &levels).unwrap();
        let data_len = file.samples.len();
        let reader = WavReader::new(Cursor::new(file.into_bytes())).unwrap();
        assert_eq!(reader.spec().channels, channel_count);
        assert_eq!(reader.spec().sample_rate, 44100);
        assert_eq!(reader.spec().bits_per_sample, bits_per_sample);
        assert_eq!(reader.spec().sample_format, SampleFormat::Int);
        assert_eq!(reader.duration(), 44100);
        assert_eq!(reader.len(), 44100 * u32::from(channel_count));
        assert_eq!(
            reader.len() as usize * usize::from(bits_per_sample / 8),
            data_len
        );
    }
}

#[test]
fn container_reader_reads_sixteen_bit_levels_back() {
    let spec = AudioFormatSpec { sample_rate: 44100, channel_count: 2, bits_per_sample: 16 };
    let left = ramp(88200, 16, 0);
    let right = ramp(88200, 16, 12345);
    let file = generate_wav(2, &spec, &vec![left.clone(), right.clone()]).unwrap();
    let reader = WavReader::new(Cursor::new(file.into_bytes())).unwrap();
    let read: Vec<i16> = reader.into_samples::<i16>().map(|sample| sample.unwrap()).collect();
    assert_eq!(read.len(), 2 * 88200);
    for t in 0..88200 {
        assert_eq!(read[2 * t], left[t]);
        assert_eq!(read[2 * t + 1], right[t]);
    }
}

#[test]
fn container_reader_reads_eight_bit_levels_back() {
    let spec = AudioFormatSpec { sample_rate: 44100, channel_count: 2, bits_per_sample: 8 };
    let left = ramp(44100, 8, 0);
    let right = ramp(44100, 8, 100);
    let file = generate_wav(1, &spec, &vec![left.clone(), right.clone()]).unwrap();
    let reader = WavReader::new(Cursor::new(file.into_bytes())).unwrap();
    let read: Vec<i8> = reader.into_samples::<i8>().map(|sample| sample.unwrap()).collect();
    assert_eq!(read.len(), 2 * 44100);
    for t in 0..44100 {
        assert_eq!(i16::from(read[2 * t]) + 128, left[t]);
        assert_eq!(i16::from(read[2 * t + 1]) + 128, right[t]);
    }
}

#[test]
fn container_reader_accepts_an_empty_file() {
    let spec = AudioFormatSpec { sample_rate: 44100, channel_count: 1, bits_per_sample: 16 };
    let file = generate_wav(0, &spec, &vec![vec![]]).unwrap();
    let reader = WavReader::new(Cursor::new(file.into_bytes())).unwrap();
    assert_eq!(reader.len(), 0);
    assert_eq!(reader.spec().channels, 1);
}
