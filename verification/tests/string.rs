use openrgb::data::{OpenRGBWritable, RawString};
use openrgb::protocol::{OpenRGBReadableStream, OpenRGBWritableStream};
use openrgb::stream::ByteReader;
use openrgb::{OpenRGBError, DEFAULT_PROTOCOL};

fn bytes(parts: &[&[u8]]) -> Vec<u8> {
    parts.concat()
}

#[test]
fn string_test_read_001() {
    let mut stream = ByteReader::new(bytes(&[&5_u16.to_le_bytes(), b"test\0"]));
    assert_eq!(stream.read_value::<String>(DEFAULT_PROTOCOL).unwrap(), "test".to_string());
    assert_eq!(stream.remaining(), 0);
}

#[test]
fn string_test_write_001() {
    let mut stream: Vec<u8> = Vec::new();
    stream.write_value("test".to_string(), DEFAULT_PROTOCOL).unwrap();
    assert_eq!(stream, bytes(&[&5_u16.to_le_bytes(), b"test\0"]));
}

#[test]
fn test_write_raw_001() {
    let mut stream: Vec<u8> = Vec::new();
    stream.write_value(RawString("test".to_string()), DEFAULT_PROTOCOL).unwrap();
    assert_eq!(stream, b"test\0".to_vec());
}

#[test]
fn string_sizes_count_bytes() {
    assert_eq!("test".to_string().size(DEFAULT_PROTOCOL), 7);
    assert_eq!(String::new().size(DEFAULT_PROTOCOL), 3);
    assert_eq!("é".to_string().size(DEFAULT_PROTOCOL), 5);
    assert_eq!(RawString("test".to_string()).size(DEFAULT_PROTOCOL), 5);
    assert_eq!(RawString("é".to_string()).size(DEFAULT_PROTOCOL), 3);
}

#[test]
fn empty_string_round_trips() {
    let mut stream: Vec<u8> = Vec::new();
    stream.write_value(String::new(), DEFAULT_PROTOCOL).unwrap();
    assert_eq!(stream, vec![1, 0, 0]);
    let mut back = ByteReader::new(stream);
    assert_eq!(back.read_value::<String>(DEFAULT_PROTOCOL).unwrap(), "");
    assert_eq!(back.remaining(), 0);
}

#[test]
fn string_of_declared_length_zero_is_empty() {
    let mut stream = ByteReader::new(vec![0, 0, 9]);
    assert_eq!(stream.read_value::<String>(DEFAULT_PROTOCOL).unwrap(), "");
    assert_eq!(stream.remaining(), 1);
}

#[test]
fn last_byte_of_a_string_is_dropped_whatever_it_is() {
    let mut stream = ByteReader::new(bytes(&[&3_u16.to_le_bytes(), b"abc"]));
    assert_eq!(stream.read_value::<String>(DEFAULT_PROTOCOL).unwrap(), "ab");
}

#[test]
fn multi_byte_text_round_trips() {
    let text = "héllo wörld ✓".to_string();
    let mut stream: Vec<u8> = Vec::new();
    stream.write_value(text.clone(), DEFAULT_PROTOCOL).unwrap();
    let expected = bytes(&[&((text.len() + 1) as u16).to_le_bytes(), text.as_bytes(), &[0]]);
    assert_eq!(stream, expected);
    assert_eq!(ByteReader::new(stream).read_value::<String>(DEFAULT_PROTOCOL).unwrap(), text);
}

#[test]
fn invalid_utf8_is_a_protocol_error() {
    let mut stream = ByteReader::new(bytes(&[&3_u16.to_le_bytes(), &[0xff, 0xfe, 0], &[7]]));
    match stream.read_value::<String>(DEFAULT_PROTOCOL) {
        Err(OpenRGBError::ProtocolError(message)) => assert_eq!(
            message,
            "Failed decoding string as UTF-8: invalid utf-8 sequence of 1 bytes from index 0"
        ),
        other => panic!("unexpected result: {:?}", other),
    }
    assert_eq!(stream.remaining(), 1);
}

#[test]
fn truncated_string_is_a_communication_error() {
    let mut stream = ByteReader::new(bytes(&[&5_u16.to_le_bytes(), b"te"]));
    assert!(matches!(
        stream.read_value::<String>(DEFAULT_PROTOCOL),
        Err(OpenRGBError::CommunicationError { .. })
    ));
    assert_eq!(stream.remaining(), 0);
    let mut stream = ByteReader::new(vec![5]);
    assert!(matches!(
        stream.read_value::<String>(DEFAULT_PROTOCOL),
        Err(OpenRGBError::CommunicationError { .. })
    ));
}

#[test]
fn longest_string_that_round_trips() {
    let text = "a".repeat(65534);
    let mut stream: Vec<u8> = Vec::new();
    stream.write_value(text.clone(), DEFAULT_PROTOCOL).unwrap();
    assert_eq!(stream.len(), 65534 + 3);
    assert_eq!(&stream[..2], &[0xff, 0xff]);
    assert_eq!(ByteReader::new(stream).read_value::<String>(DEFAULT_PROTOCOL).unwrap(), text);
}

#[test]
fn string_too_long_for_its_length_field_is_refused() {
    for count in [65535_usize, 65536, 65537, 200000] {
        let text = "a".repeat(count);
        let mut stream: Vec<u8> = vec![9];
        match stream.write_value(text.clone(), DEFAULT_PROTOCOL) {
            Err(OpenRGBError::ProtocolError(message)) => {
                assert_eq!(message, format!("String is too large to encode: {} bytes", count))
            }
            other => panic!("unexpected result: {:?}", other),
        }
        assert_eq!(stream, vec![9]);
        assert_eq!(text.size(DEFAULT_PROTOCOL), count + 3);
    }
    let text = "é".repeat(32768);
    let mut stream: Vec<u8> = Vec::new();
    assert!(matches!(
        stream.write_value(text, DEFAULT_PROTOCOL),
        Err(OpenRGBError::ProtocolError(_))
    ));
    assert_eq!(stream, Vec::<u8>::new());
    let text = "é".repeat(32767);
    let mut stream: Vec<u8> = Vec::new();
    stream.write_value(text.clone(), DEFAULT_PROTOCOL).unwrap();
    assert_eq!(&stream[..2], &[0xff, 0xff]);
    assert_eq!(ByteReader::new(stream).read_value::<String>(DEFAULT_PROTOCOL).unwrap(), text);
}

#[test]
fn refused_string_leaves_what_came_before_it() {
    let mut stream: Vec<u8> = Vec::new();
    let r = stream.write_value((7_u8, "a".repeat(65535), 8_u8), DEFAULT_PROTOCOL);
    assert!(matches!(r, Err(OpenRGBError::ProtocolError(_))));
    assert_eq!(stream, vec![7]);
    let mut stream: Vec<u8> = Vec::new();
    let r = stream.write_value(vec!["ok".to_string(), "a".repeat(70000)], DEFAULT_PROTOCOL);
    assert!(matches!(r, Err(OpenRGBError::ProtocolError(_))));
    assert_eq!(stream, vec![2, 0, 3, 0, b'o', b'k', 0]);
}

#[test]
fn invalid_utf8_is_reported_with_its_reason() {
    for text in [&[b'a', 0xc3][..], &[0xe2, 0x82][..], &[b'o', b'k', 0x80, b'!'][..]] {
        let expected = format!(
            "Failed decoding string as UTF-8: {}",
            String::from_utf8(text.to_vec()).unwrap_err()
        );
        let data = bytes(&[&((text.len() + 1) as u16).to_le_bytes(), text, &[0]]);
        let mut stream = ByteReader::new(data);
        match stream.read_value::<String>(DEFAULT_PROTOCOL) {
            Err(OpenRGBError::ProtocolError(message)) => {
                assert!(message.len() > "Failed decoding string as UTF-8: ".len());
                assert_eq!(message, expected);
            }
            other => panic!("unexpected result: {:?}", other),
        }
        assert_eq!(stream.remaining(), 0);
    }
}
