use byteorder::{LittleEndian, ReadBytesExt};
use daq_recorder::decode::{read_array_offset, read_register_offset, read_sample_offset};
use std::io::{Cursor, Seek, SeekFrom};

#[test]
fn register_word_exact_value() {
    // 0x0807060504030201 little-endian.
    let image: Vec<u8> = vec![1, 2, 3, 4, 5, 6, 7, 8];
    assert_eq!(read_register_offset(&image, 0), 0x0807_0605_0403_0201u64);
}

#[test]
fn register_word_at_offset() {
    let mut image = vec![0xFFu8; 4];
    image.extend_from_slice(&[0x39, 0x30, 0, 0, 0, 0, 0, 0]);
    assert_eq!(read_register_offset(&image, 4), 12345);
}

#[test]
fn register_word_matches_byteorder() {
    let image: Vec<u8> = (0u16..64).map(|b| (b * 7 % 256) as u8).collect();
    for offset in [0usize, 8, 13, 56] {
        let mut cursor = Cursor::new(image.clone());
        cursor.seek(SeekFrom::Start(offset as u64)).unwrap();
        let expected = cursor.read_u64::<LittleEndian>().unwrap();
        assert_eq!(read_register_offset(&image, offset), expected);
    }
}

#[test]
fn sample_exact_value() {
    let image: Vec<u8> = vec![0x34, 0x12];
    assert_eq!(read_sample_offset(&image, 0), 0x1234);
}

#[test]
fn array_matches_byteorder() {
    let image: Vec<u8> = (0u32..40).map(|b| (b * 11 % 256) as u8).collect();
    let wave = read_array_offset(&image, 4, 16);
    let mut cursor = Cursor::new(image.clone());
    cursor.seek(SeekFrom::Start(4)).unwrap();
    let mut expected = [0u16; 16];
    cursor.read_u16_into::<LittleEndian>(&mut expected).unwrap();
    assert_eq!(wave.as_slice(), &expected);
}

#[test]
fn array_empty_window() {
    let image: Vec<u8> = vec![9, 9, 9];
    let wave = read_array_offset(&image, 1, 0);
    assert!(wave.is_empty());
}
