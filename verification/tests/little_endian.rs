use tonegen::little_endian::{push_i16_le, push_u16_le, push_u32_le};

#[test]
fn u16_goes_least_significant_byte_first() {
    let mut buffer = vec![9u8];
    push_u16_le(&mut buffer, 0x1234);
    assert_eq!(buffer, vec![9, 0x34, 0x12]);
    push_u16_le(&mut buffer, 0);
    push_u16_le(&mut buffer, u16::MAX);
    assert_eq!(buffer, vec![9, 0x34, 0x12, 0, 0, 0xff, 0xff]);
}

#[test]
fn u32_goes_least_significant_byte_first() {
    let mut buffer = Vec::new();
    push_u32_le(&mut buffer, 0x1234_5678);
    assert_eq!(buffer, vec![0x78, 0x56, 0x34, 0x12]);
    push_u32_le(&mut buffer, 44100);
    assert_eq!(&buffer[4..], &[0x44, 0xac, 0x00, 0x00]);
}

#[test]
fn i16_goes_in_twos_complement() {
    let mut buffer = Vec::new();
    push_i16_le(&mut buffer, -2);
    push_i16_le(&mut buffer, i16::MIN);
    push_i16_le(&mut buffer, i16::MAX);
    assert_eq!(buffer, vec![0xfe, 0xff, 0x00, 0x80, 0xff, 0x7f]);
}

#[test]
fn every_u16_agrees_with_std() {
    for value in 0..=u16::MAX {
        let mut buffer = Vec::new();
        push_u16_le(&mut buffer, value);
        assert_eq!(buffer, value.to_le_bytes().to_vec());
    }
}

#[test]
fn u32_agrees_with_std_across_the_range() {
    let mut value: u32 = 0;
    loop {
        for probe in [value, value.wrapping_add(1), value.wrapping_sub(1), !value] {
            let mut buffer = Vec::new();
            push_u32_le(&mut buffer, probe);
            assert_eq!(buffer, probe.to_le_bytes().to_vec());
        }
        match value.checked_add(65_521) {
            Some(next) => value = next,
            None => break,
        }
    }
}
