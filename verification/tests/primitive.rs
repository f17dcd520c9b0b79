use openrgb::data::OpenRGBWritable;
use openrgb::protocol::{OpenRGBReadableStream, OpenRGBWritableStream};
use openrgb::stream::ByteReader;
use openrgb::{OpenRGBError, DEFAULT_PROTOCOL};

fn reader(bytes: &[u8]) -> ByteReader {
    ByteReader::new(bytes.to_vec())
}

#[test]
fn test_read_void_001() {
    let mut stream = reader(&[]);
    assert_eq!(stream.read_value::<()>(DEFAULT_PROTOCOL).unwrap(), ());
    assert_eq!(stream.remaining(), 0);
}

#[test]
fn test_write_void_001() {
    let mut stream: Vec<u8> = Vec::new();
    stream.write_value((), DEFAULT_PROTOCOL).unwrap();
    assert_eq!(stream, Vec::<u8>::new());
}

#[test]
fn test_read_u8_001() {
    let mut stream = reader(&[37_u8]);
    assert_eq!(stream.read_value::<u8>(DEFAULT_PROTOCOL).unwrap(), 37);
    assert_eq!(stream.remaining(), 0);
}

#[test]
fn test_write_u8_001() {
    let mut stream: Vec<u8> = Vec::new();
    stream.write_value(37_u8, DEFAULT_PROTOCOL).unwrap();
    assert_eq!(stream, vec![37_u8]);
}

#[test]
fn test_read_u16_001() {
    let mut stream = reader(&37_u16.to_le_bytes());
    assert_eq!(stream.read_value::<u16>(DEFAULT_PROTOCOL).unwrap(), 37);
    assert_eq!(stream.remaining(), 0);
}

#[test]
fn test_write_u16_001() {
    let mut stream: Vec<u8> = Vec::new();
    stream.write_value(37_u16, DEFAULT_PROTOCOL).unwrap();
    assert_eq!(stream, 37_u16.to_le_bytes().to_vec());
}

#[test]
fn test_read_u32_001() {
    let mut stream = reader(&185851_u32.to_le_bytes());
    assert_eq!(stream.read_value::<u32>(DEFAULT_PROTOCOL).unwrap(), 185851);
    assert_eq!(stream.remaining(), 0);
}

#[test]
fn test_write_u32_001() {
    let mut stream: Vec<u8> = Vec::new();
    stream.write_value(185851_u32, DEFAULT_PROTOCOL).unwrap();
    assert_eq!(stream, 185851_u32.to_le_bytes().to_vec());
}

#[test]
fn test_read_i32_001() {
    let mut stream = reader(&(-185851_i32).to_le_bytes());
    assert_eq!(stream.read_value::<i32>(DEFAULT_PROTOCOL).unwrap(), -185851_i32);
    assert_eq!(stream.remaining(), 0);
}

#[test]
fn test_write_i32_001() {
    let mut stream: Vec<u8> = Vec::new();
    stream.write_value(-185851_i32, DEFAULT_PROTOCOL).unwrap();
    assert_eq!(stream, (-185851_i32).to_le_bytes().to_vec());
}

#[test]
fn test_read_usize_001() {
    let mut stream = reader(&185851_u32.to_le_bytes());
    assert_eq!(stream.read_value::<usize>(DEFAULT_PROTOCOL).unwrap(), 185851_usize);
    assert_eq!(stream.remaining(), 0);
}

#[test]
fn test_write_usize_001() {
    let mut stream: Vec<u8> = Vec::new();
    stream.write_value(185851_usize, DEFAULT_PROTOCOL).unwrap();
    assert_eq!(stream, 185851_u32.to_le_bytes().to_vec());
}

#[test]
fn integers_are_little_endian() {
    let mut stream: Vec<u8> = Vec::new();
    stream.write_value(0x0102_u16, DEFAULT_PROTOCOL).unwrap();
    stream.write_value(0x01020304_u32, DEFAULT_PROTOCOL).unwrap();
    stream.write_value(-2_i32, DEFAULT_PROTOCOL).unwrap();
    assert_eq!(stream, vec![2, 1, 4, 3, 2, 1, 0xfe, 0xff, 0xff, 0xff]);
    let mut back = ByteReader::new(stream);
    assert_eq!(back.read_value::<u16>(DEFAULT_PROTOCOL).unwrap(), 0x0102);
    assert_eq!(back.read_value::<u32>(DEFAULT_PROTOCOL).unwrap(), 0x01020304);
    assert_eq!(back.read_value::<i32>(DEFAULT_PROTOCOL).unwrap(), -2);
    assert_eq!(back.remaining(), 0);
}

#[test]
fn extreme_integers_round_trip() {
    for value in [0_u32, 1, 255, 256, 65535, 65536, 0x7fff_ffff, 0x8000_0000, u32::MAX] {
        let mut stream: Vec<u8> = Vec::new();
        stream.write_value(value, 0).unwrap();
        assert_eq!(stream, value.to_le_bytes().to_vec());
        assert_eq!(ByteReader::new(stream).read_value::<u32>(0).unwrap(), value);
    }
    for value in [i32::MIN, -1, 0, 1, i32::MAX] {
        let mut stream: Vec<u8> = Vec::new();
        stream.write_value(value, 0).unwrap();
        assert_eq!(stream, value.to_le_bytes().to_vec());
        assert_eq!(ByteReader::new(stream).read_value::<i32>(0).unwrap(), value);
    }
    for value in [0_u16, 255, 256, u16::MAX] {
        let mut stream: Vec<u8> = Vec::new();
        stream.write_value(value, 0).unwrap();
        assert_eq!(ByteReader::new(stream).read_value::<u16>(0).unwrap(), value);
    }
}

#[test]
fn sizes_of_primitives() {
    assert_eq!(().size(DEFAULT_PROTOCOL), 0);
    assert_eq!(7_u8.size(DEFAULT_PROTOCOL), 1);
    assert_eq!(7_u16.size(DEFAULT_PROTOCOL), 2);
    assert_eq!(7_u32.size(DEFAULT_PROTOCOL), 4);
    assert_eq!((-7_i32).size(DEFAULT_PROTOCOL), 4);
    assert_eq!(7_usize.size(DEFAULT_PROTOCOL), 4);
}

#[test]
fn short_stream_is_a_communication_error_and_is_drained() {
    let mut stream = reader(&[1, 2, 3]);
    let r = stream.read_value::<u32>(DEFAULT_PROTOCOL);
    assert!(matches!(r, Err(OpenRGBError::CommunicationError { .. })));
    assert_eq!(stream.remaining(), 0);
    let mut empty = reader(&[]);
    assert!(matches!(
        empty.read_value::<u8>(DEFAULT_PROTOCOL),
        Err(OpenRGBError::CommunicationError { .. })
    ));
}

#[test]
fn usize_beyond_four_bytes_is_refused() {
    if usize::BITS > 32 {
        let too_large = (u32::MAX as u64 + 1) as usize;
        let mut stream: Vec<u8> = Vec::new();
        match stream.write_value(too_large, DEFAULT_PROTOCOL) {
            Err(OpenRGBError::ProtocolError(message)) => assert_eq!(
                message,
                "Data size is too large to encode: 4294967296 (out of range integral type conversion attempted)"
            ),
            other => panic!("unexpected result: {:?}", other),
        }
        assert_eq!(stream, Vec::<u8>::new());
    }
    let mut stream: Vec<u8> = Vec::new();
    stream.write_value(u32::MAX as usize, DEFAULT_PROTOCOL).unwrap();
    assert_eq!(stream, vec![255, 255, 255, 255]);
}

#[test]
fn decimal_numerals() {
    assert_eq!(openrgb::text::decimal_string(0), "0");
    assert_eq!(openrgb::text::decimal_string(7), "7");
    assert_eq!(openrgb::text::decimal_string(10), "10");
    assert_eq!(openrgb::text::decimal_string(1234567890), "1234567890");
    assert_eq!(openrgb::text::decimal_string(u64::MAX), "18446744073709551615");
}
