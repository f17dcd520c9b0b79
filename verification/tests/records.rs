use array2d::Array2D;
use openrgb::data::{
    Color, ColorMode, Controller, DeviceType, Direction, FlagSet, Mode, ModeFlag, OpenRGBWritable,
    Zone, ZoneType, LED,
};
use openrgb::protocol::{OpenRGBReadableStream, OpenRGBWritableStream};
use openrgb::stream::ByteReader;
use openrgb::{OpenRGBError, DEFAULT_PROTOCOL};

fn bytes(parts: &[&[u8]]) -> Vec<u8> {
    parts.concat()
}

fn protocol_error<T: std::fmt::Debug>(r: Result<T, OpenRGBError>) -> String {
    match r {
        Err(OpenRGBError::ProtocolError(message)) => message,
        other => panic!("unexpected result: {:?}", other),
    }
}

#[test]
fn color_test_read_001() {
    let mut stream = ByteReader::new(vec![37_u8, 54_u8, 126_u8, 0_u8]);
    assert_eq!(
        stream.read_value::<Color>(DEFAULT_PROTOCOL).unwrap(),
        Color { r: 37, g: 54, b: 126 }
    );
    assert_eq!(stream.remaining(), 0);
}

#[test]
fn color_test_write_001() {
    let mut stream: Vec<u8> = Vec::new();
    stream.write_value(Color { r: 37, g: 54, b: 126 }, DEFAULT_PROTOCOL).unwrap();
    assert_eq!(stream, vec![37_u8, 54_u8, 126_u8, 0_u8]);
}

#[test]
fn color_padding_is_ignored_on_read_and_zero_on_write() {
    let mut stream = ByteReader::new(vec![1, 2, 3, 99]);
    let color = stream.read_value::<Color>(DEFAULT_PROTOCOL).unwrap();
    assert_eq!(color, Color { r: 1, g: 2, b: 3 });
    let mut out: Vec<u8> = Vec::new();
    out.write_value(color, DEFAULT_PROTOCOL).unwrap();
    assert_eq!(out, vec![1, 2, 3, 0]);
    assert_eq!(color.size(0), 4);
    assert_eq!(color.size(DEFAULT_PROTOCOL), 4);
    assert_eq!(Color::default(), Color { r: 0, g: 0, b: 0 });
}

#[test]
fn led_test_read_001() {
    let mut stream =
        ByteReader::new(bytes(&[&5_u16.to_le_bytes(), b"test\0", &45_u32.to_le_bytes()]));
    assert_eq!(
        stream.read_value::<LED>(DEFAULT_PROTOCOL).unwrap(),
        LED { name: "test".to_string(), value: 45 }
    );
    assert_eq!(stream.remaining(), 0);
}

fn mode_bytes_protocol_3(flags: u32, colors: &[u8], color_count: u16) -> Vec<u8> {
    bytes(&[
        &5_u16.to_le_bytes(),    // name len
        b"test\0",               // name
        &46_i32.to_le_bytes(),   // value
        &flags.to_le_bytes(),    // flags
        &10_u32.to_le_bytes(),   // speed_min
        &1000_u32.to_le_bytes(), // speed_max
        &1_u32.to_le_bytes(),    // brightness_min
        &1024_u32.to_le_bytes(), // brightness_max
        &0_u32.to_le_bytes(),    // colors_min
        &256_u32.to_le_bytes(),  // colors_max
        &51_u32.to_le_bytes(),   // speed
        &512_u32.to_le_bytes(),  // brightness
        &4_u32.to_le_bytes(),    // direction
        &1_u32.to_le_bytes(),    // color_mode
        &color_count.to_le_bytes(),
        colors,
    ])
}

fn full_mode() -> Mode {
    Mode {
        name: "test".to_string(),
        value: 46,
        flags: ModeFlag::HasDirection | ModeFlag::HasSpeed | ModeFlag::HasBrightness,
        speed_min: Some(10),
        speed_max: Some(1000),
        brightness_min: Some(1),
        brightness_max: Some(1024),
        colors_min: Some(0),
        colors_max: Some(256),
        speed: Some(51),
        brightness: Some(512),
        direction: Some(Direction::Horizontal),
        color_mode: Some(ColorMode::PerLED),
        colors: vec![Color { r: 37, g: 54, b: 126 }, Color { r: 37, g: 54, b: 255 }],
    }
}

#[test]
fn mode_test_read_001() {
    let mut stream = ByteReader::new(mode_bytes_protocol_3(
        31,
        &[37_u8, 54_u8, 126_u8, 0_u8, 37_u8, 54_u8, 255_u8, 0_u8],
        2,
    ));
    assert_eq!(stream.read_value::<Mode>(DEFAULT_PROTOCOL).unwrap(), full_mode());
    assert_eq!(stream.remaining(), 0);
}

#[test]
fn mode_test_read_002() {
    let mut stream = ByteReader::new(mode_bytes_protocol_3(0, &[], 0));
    assert_eq!(
        stream.read_value::<Mode>(DEFAULT_PROTOCOL).unwrap(),
        Mode {
            name: "test".to_string(),
            value: 46,
            flags: Default::default(),
            speed_min: None,
            speed_max: None,
            brightness_min: None,
            brightness_max: None,
            colors_min: None,
            colors_max: None,
            speed: None,
            brightness: None,
            direction: None,
            color_mode: Some(ColorMode::PerLED),
            colors: vec![],
        }
    );
    assert_eq!(stream.remaining(), 0);
}

fn mode_bytes_protocol_2() -> Vec<u8> {
    bytes(&[
        &5_u16.to_le_bytes(),    // name len
        b"test\0",               // name
        &46_i32.to_le_bytes(),   // value
        &31_u32.to_le_bytes(),   // flags
        &10_u32.to_le_bytes(),   // speed_min
        &1000_u32.to_le_bytes(), // speed_max
        &0_u32.to_le_bytes(),    // colors_min
        &256_u32.to_le_bytes(),  // colors_max
        &51_u32.to_le_bytes(),   // speed
        &4_u32.to_le_bytes(),    // direction
        &1_u32.to_le_bytes(),    // color_mode
        &2_u16.to_le_bytes(),    // colors len
        &[37_u8, 54_u8, 126_u8, 0_u8],
        &[37_u8, 54_u8, 255_u8, 0_u8],
    ])
}

#[test]
fn test_read_003() {
    let mut stream = ByteReader::new(mode_bytes_protocol_2());
    assert_eq!(
        stream.read_value::<Mode>(2).unwrap(),
        Mode {
            name: "test".to_string(),
            value: 46,
            flags: ModeFlag::HasDirection | ModeFlag::HasSpeed | ModeFlag::HasBrightness,
            speed_min: Some(10),
            speed_max: Some(1000),
            brightness_min: None,
            brightness_max: None,
            colors_min: Some(0),
            colors_max: Some(256),
            speed: Some(51),
            brightness: None,
            direction: Some(Direction::Horizontal),
            color_mode: Some(ColorMode::PerLED),
            colors: vec![Color { r: 37, g: 54, b: 126 }, Color { r: 37, g: 54, b: 255 }],
        }
    );
    assert_eq!(stream.remaining(), 0);
}

#[test]
fn mode_test_write_001() {
    let mut stream: Vec<u8> = Vec::new();
    stream.write_value(full_mode(), DEFAULT_PROTOCOL).unwrap();
    assert_eq!(
        stream,
        mode_bytes_protocol_3(31, &[37_u8, 54_u8, 126_u8, 0_u8, 37_u8, 54_u8, 255_u8, 0_u8], 2)
    );
}

#[test]
fn mode_written_before_protocol_3_has_no_brightness() {
    for protocol in [0, 1, 2] {
        let mut stream: Vec<u8> = Vec::new();
        stream.write_value(full_mode(), protocol).unwrap();
        assert_eq!(stream, mode_bytes_protocol_2());
        assert_eq!(full_mode().size(protocol), stream.len());
        assert_eq!(full_mode().size(protocol), 7 + 36 + 2 + 8);
    }
    assert_eq!(full_mode().size(3), 7 + 48 + 2 + 8);
    assert_eq!(full_mode().size(4), 7 + 48 + 2 + 8);
}

#[test]
fn flagged_mode_round_trips() {
    for protocol in [3_u32, 4] {
        let mut stream: Vec<u8> = Vec::new();
        stream.write_value(full_mode(), protocol).unwrap();
        let mut back = ByteReader::new(stream);
        assert_eq!(back.read_value::<Mode>(protocol).unwrap(), full_mode());
        assert_eq!(back.remaining(), 0);
    }
    let mut without_brightness = full_mode();
    without_brightness.brightness_min = None;
    without_brightness.brightness_max = None;
    without_brightness.brightness = None;
    let mut stream: Vec<u8> = Vec::new();
    stream.write_value(full_mode(), 2).unwrap();
    assert_eq!(ByteReader::new(stream).read_value::<Mode>(2).unwrap(), without_brightness);
}

#[test]
fn absent_fields_are_written_as_defaults() {
    let mode = Mode {
        name: "m".to_string(),
        value: -1,
        flags: FlagSet::empty(),
        speed_min: None,
        speed_max: None,
        brightness_min: None,
        brightness_max: None,
        colors_min: None,
        colors_max: None,
        speed: None,
        brightness: None,
        direction: None,
        color_mode: None,
        colors: vec![],
    };
    let mut stream: Vec<u8> = Vec::new();
    stream.write_value(mode, DEFAULT_PROTOCOL).unwrap();
    let mut expected = vec![2, 0, b'm', 0, 0xff, 0xff, 0xff, 0xff];
    expected.extend_from_slice(&[0; 44]);
    expected.extend_from_slice(&[0, 0]);
    assert_eq!(stream, expected);
}

#[test]
fn fields_without_their_flag_are_written_all_the_same() {
    let mode = Mode {
        name: "m".to_string(),
        value: 1,
        flags: FlagSet::empty(),
        speed_min: Some(2),
        speed_max: Some(3),
        brightness_min: Some(4),
        brightness_max: Some(5),
        colors_min: Some(6),
        colors_max: Some(7),
        speed: Some(8),
        brightness: Some(9),
        direction: Some(Direction::Down),
        color_mode: Some(ColorMode::Random),
        colors: vec![],
    };
    let mut stream: Vec<u8> = Vec::new();
    stream.write_value(mode, DEFAULT_PROTOCOL).unwrap();
    let words: Vec<u8> = [1_u32, 0, 2, 3, 4, 5, 6, 7, 8, 9, 3, 3]
        .iter()
        .flat_map(|word| word.to_le_bytes())
        .collect();
    assert_eq!(stream, bytes(&[&[2, 0, b'm', 0], &words, &[0, 0]]));
    let decoded = ByteReader::new(stream).read_value::<Mode>(DEFAULT_PROTOCOL).unwrap();
    assert_eq!(decoded.speed_min, None);
    assert_eq!(decoded.brightness, None);
    assert_eq!(decoded.colors_max, None);
    assert_eq!(decoded.direction, None);
    assert_eq!(decoded.color_mode, Some(ColorMode::Random));
}

#[test]
fn direction_needs_all_three_direction_bits() {
    let mut stream = ByteReader::new(mode_bytes_protocol_3(2 | 8 | 16, &[], 0));
    let mode = stream.read_value::<Mode>(DEFAULT_PROTOCOL).unwrap();
    assert_eq!(mode.direction, None);
    assert_eq!(mode.brightness, Some(512));
    assert_eq!(mode.speed, None);
}

#[test]
fn mode_errors_come_in_stream_order() {
    let mut data = mode_bytes_protocol_3(1024, &[], 0);
    let mut stream = ByteReader::new(data.clone());
    assert_eq!(
        protocol_error(stream.read_value::<Mode>(DEFAULT_PROTOCOL)),
        "Received invalid mode flag set: 1024 (invalid bits)"
    );
    assert_eq!(stream.remaining(), data.len() - 15);
    data = mode_bytes_protocol_3(31, &[], 0);
    data[7 + 44] = 9; // color_mode
    let mut stream = ByteReader::new(data.clone());
    assert_eq!(
        protocol_error(stream.read_value::<Mode>(DEFAULT_PROTOCOL)),
        "unknown color mode \"9\""
    );
    assert_eq!(stream.remaining(), 2);
    data = mode_bytes_protocol_3(31, &[], 0);
    data[7 + 40] = 6; // direction
    let mut stream = ByteReader::new(data.clone());
    assert_eq!(
        protocol_error(stream.read_value::<Mode>(DEFAULT_PROTOCOL)),
        "unknown direction \"6\""
    );
    assert_eq!(stream.remaining(), 0);
    data = mode_bytes_protocol_3(17, &[], 0);
    data[7 + 40] = 6; // direction of a mode without one
    let mut stream = ByteReader::new(data);
    assert_eq!(stream.read_value::<Mode>(DEFAULT_PROTOCOL).unwrap().direction, None);
    let mut short = mode_bytes_protocol_3(31, &[], 0);
    short.truncate(30);
    assert!(matches!(
        ByteReader::new(short).read_value::<Mode>(DEFAULT_PROTOCOL),
        Err(OpenRGBError::CommunicationError { .. })
    ));
}

#[test]
fn mode_with_too_many_colors_is_refused_after_its_block() {
    let mut mode = full_mode();
    mode.colors = vec![Color { r: 0, g: 0, b: 0 }; 65536];
    let mut stream: Vec<u8> = Vec::new();
    assert!(matches!(
        stream.write_value(mode, DEFAULT_PROTOCOL),
        Err(OpenRGBError::ProtocolError(_))
    ));
    assert_eq!(stream.len(), 7 + 48);
}

#[test]
fn zone_test_read_001() {
    let mut stream = ByteReader::new(bytes(&[
        &5_u16.to_le_bytes(),  // name len
        b"test\0",             // name
        &1_u32.to_le_bytes(),  // type
        &3_u32.to_le_bytes(),  // leds_min
        &18_u32.to_le_bytes(), // leds_max
        &15_u32.to_le_bytes(), // leds_count
        &0_u16.to_le_bytes(),  // matrix_len
    ]));
    assert_eq!(
        stream.read_value::<Zone>(DEFAULT_PROTOCOL).unwrap(),
        Zone {
            name: "test".to_string(),
            zone_type: ZoneType::Linear,
            leds_min: 3,
            leds_max: 18,
            leds_count: 15,
            matrix: None,
        }
    );
    assert_eq!(stream.remaining(), 0);
}

fn zone_with_matrix(height: u32, width: u32, cells: &[u32]) -> Vec<u8> {
    let cells: Vec<u8> = cells.iter().flat_map(|cell| cell.to_le_bytes()).collect();
    bytes(&[
        &5_u16.to_le_bytes(),  // name len
        b"test\0",             // name
        &1_u32.to_le_bytes(),  // type
        &3_u32.to_le_bytes(),  // leds_min
        &18_u32.to_le_bytes(), // leds_max
        &15_u32.to_le_bytes(), // leds_count
        &32_u16.to_le_bytes(), // matrix_len
        &height.to_le_bytes(), // matrix_height
        &width.to_le_bytes(),  // matrix_width
        &cells,
    ])
}

#[test]
fn zone_test_read_002() {
    let mut stream = ByteReader::new(zone_with_matrix(2, 3, &[0, 1, 2, 3, 4, 5]));
    assert_eq!(
        stream.read_value::<Zone>(DEFAULT_PROTOCOL).unwrap(),
        Zone {
            name: "test".to_string(),
            zone_type: ZoneType::Linear,
            leds_min: 3,
            leds_max: 18,
            leds_count: 15,
            matrix: Some(Array2D::from_rows(&[vec![0, 1, 2], vec![3, 4, 5]])),
        }
    );
    assert_eq!(stream.remaining(), 0);
}

#[test]
fn matrix_is_filled_row_by_row() {
    let mut stream = ByteReader::new(zone_with_matrix(3, 2, &[10, 11, 20, 21, 30, 31]));
    let zone = stream.read_value::<Zone>(DEFAULT_PROTOCOL).unwrap();
    let matrix = zone.matrix.unwrap();
    assert_eq!(matrix.num_rows(), 3);
    assert_eq!(matrix.num_columns(), 2);
    assert_eq!(matrix.as_rows(), vec![vec![10, 11], vec![20, 21], vec![30, 31]]);
    assert_eq!(matrix.get(2, 0), Some(&30));
    assert_eq!(matrix.as_row_major(), vec![10, 11, 20, 21, 30, 31]);
}

#[test]
fn matrix_without_cells() {
    let mut stream = ByteReader::new(zone_with_matrix(0, 5, &[]));
    let matrix = stream.read_value::<Zone>(DEFAULT_PROTOCOL).unwrap().matrix.unwrap();
    assert_eq!(matrix.num_rows(), 0);
    assert_eq!(matrix.num_columns(), 5);
    assert_eq!(matrix.num_elements(), 0);
    let mut stream = ByteReader::new(zone_with_matrix(4, 0, &[]));
    let matrix = stream.read_value::<Zone>(DEFAULT_PROTOCOL).unwrap().matrix.unwrap();
    assert_eq!(matrix.num_rows(), 4);
    assert_eq!(matrix.num_columns(), 0);
}

#[test]
fn zone_failures() {
    let mut data = zone_with_matrix(2, 3, &[0, 1, 2, 3, 4]);
    let mut stream = ByteReader::new(data.clone());
    assert!(matches!(
        stream.read_value::<Zone>(DEFAULT_PROTOCOL),
        Err(OpenRGBError::CommunicationError { .. })
    ));
    data = zone_with_matrix(u32::MAX, u32::MAX, &[0, 1, 2]);
    assert!(matches!(
        ByteReader::new(data).read_value::<Zone>(DEFAULT_PROTOCOL),
        Err(OpenRGBError::CommunicationError { .. })
    ));
    data = zone_with_matrix(1, 1, &[0]);
    data[7] = 3; // type
    let mut stream = ByteReader::new(data.clone());
    assert_eq!(
        protocol_error(stream.read_value::<Zone>(DEFAULT_PROTOCOL)),
        "unknown zone type \"3\""
    );
    assert_eq!(stream.remaining(), data.len() - 11);
}

#[test]
fn controller_test_read_001() {
    let mut stream = ByteReader::new(bytes(&[
        &760_u32.to_le_bytes(),
        &[
            3, 0, 0, 0, 18, 0, 84, 104, 101, 114, 109, 97, 108, 116, 97, 107, 101, 32, 82, 105,
            105, 110, 103, 0, 12, 0, 84, 104, 101, 114, 109, 97, 108, 116, 97, 107, 101, 0, 25,
            0, 84, 104, 101, 114, 109, 97, 108, 116, 97, 107, 101, 32, 82, 105, 105, 110, 103,
            32, 68, 101, 118, 105, 99, 101, 0, 1, 0, 0, 1, 0, 0, 19, 0, 72, 73, 68, 58, 32, 47,
            100, 101, 118, 47, 104, 105, 100, 114, 97, 119, 49, 48, 0, 8, 0, 0, 0, 0, 0, 7, 0,
            68, 105, 114, 101, 99, 116, 0, 24, 0, 0, 0, 32, 0, 0, 0, 0, 0, 0, 0, 0, 0, 0, 0, 0,
            0, 0, 0, 0, 0, 0, 0, 0, 0, 0, 0, 0, 0, 0, 0, 0, 0, 0, 0, 0, 0, 0, 0, 0, 0, 0, 0, 1,
            0, 0, 0, 0, 0, 7, 0, 83, 116, 97, 116, 105, 99, 0, 25, 0, 0, 0, 64, 0, 0, 0, 0, 0, 0,
            0, 0, 0, 0, 0, 0, 0, 0, 0, 0, 0, 0, 0, 1, 0, 0, 0, 1, 0, 0, 0, 0, 0, 0, 0, 0, 0, 0,
            0, 0, 0, 0, 0, 2, 0, 0, 0, 1, 0, 0, 0, 0, 0, 5, 0, 70, 108, 111, 119, 0, 0, 0, 0, 0,
            1, 0, 0, 0, 3, 0, 0, 0, 0, 0, 0, 0, 0, 0, 0, 0, 0, 0, 0, 0, 0, 0, 0, 0, 0, 0, 0, 0,
            2, 0, 0, 0, 0, 0, 0, 0, 0, 0, 0, 0, 0, 0, 0, 0, 0, 0, 9, 0, 83, 112, 101, 99, 116,
            114, 117, 109, 0, 4, 0, 0, 0, 1, 0, 0, 0, 3, 0, 0, 0, 0, 0, 0, 0, 0, 0, 0, 0, 0, 0,
            0, 0, 0, 0, 0, 0, 0, 0, 0, 0, 2, 0, 0, 0, 0, 0, 0, 0, 0, 0, 0, 0, 0, 0, 0, 0, 0, 0,
            7, 0, 82, 105, 112, 112, 108, 101, 0, 8, 0, 0, 0, 33, 0, 0, 0, 3, 0, 0, 0, 0, 0, 0,
            0, 0, 0, 0, 0, 0, 0, 0, 0, 0, 0, 0, 0, 0, 0, 0, 0, 2, 0, 0, 0, 0, 0, 0, 0, 0, 0, 0,
            0, 1, 0, 0, 0, 0, 0, 6, 0, 66, 108, 105, 110, 107, 0, 12, 0, 0, 0, 33, 0, 0, 0, 3, 0,
            0, 0, 0, 0, 0, 0, 0, 0, 0, 0, 0, 0, 0, 0, 0, 0, 0, 0, 0, 0, 0, 0, 2, 0, 0, 0, 0, 0,
            0, 0, 0, 0, 0, 0, 1, 0, 0, 0, 0, 0, 6, 0, 80, 117, 108, 115, 101, 0, 16, 0, 0, 0, 33,
            0, 0, 0, 3, 0, 0, 0, 0, 0, 0, 0, 0, 0, 0, 0, 0, 0, 0, 0, 0, 0, 0, 0, 0, 0, 0, 0, 2,
            0, 0, 0, 0, 0, 0, 0, 0, 0, 0, 0, 1, 0, 0, 0, 0, 0, 5, 0, 87, 97, 118, 101, 0, 20, 0,
            0, 0, 33, 0, 0, 0, 3, 0, 0, 0, 0, 0, 0, 0, 0, 0, 0, 0, 0, 0, 0, 0, 0, 0, 0, 0, 0, 0,
            0, 0, 2, 0, 0, 0, 0, 0, 0, 0, 0, 0, 0, 0, 1, 0, 0, 0, 0, 0, 5, 0, 16, 0, 82, 105,
            105, 110, 103, 32, 67, 104, 97, 110, 110, 101, 108, 32, 49, 0, 1, 0, 0, 0, 0, 0, 0,
            0, 20, 0, 0, 0, 0, 0, 0, 0, 0, 0, 16, 0, 82, 105, 105, 110, 103, 32, 67, 104, 97,
            110, 110, 101, 108, 32, 50, 0, 1, 0, 0, 0, 0, 0, 0, 0, 20, 0, 0, 0, 0, 0, 0, 0, 0, 0,
            16, 0, 82, 105, 105, 110, 103, 32, 67, 104, 97, 110, 110, 101, 108, 32, 51, 0, 1, 0,
            0, 0, 0, 0, 0, 0, 20, 0, 0, 0, 0, 0, 0, 0, 0, 0, 16, 0, 82, 105, 105, 110, 103, 32,
            67, 104, 97, 110, 110, 101, 108, 32, 52, 0, 1, 0, 0, 0, 0, 0, 0, 0, 20, 0, 0, 0, 0,
            0, 0, 0, 0, 0, 16, 0, 82, 105, 105, 110, 103, 32, 67, 104, 97, 110, 110, 101, 108,
            32, 53, 0, 1, 0, 0, 0, 0, 0, 0, 0, 20, 0, 0, 0, 0, 0, 0, 0, 0, 0, 0, 0, 0, 0,
        ],
    ]));
    let speed_mode = |name: &str, value: i32, flags: FlagSet, color_mode: ColorMode| Mode {
        name: name.to_string(),
        value,
        flags,
        speed_min: Some(3),
        speed_max: Some(0),
        brightness_min: None,
        brightness_max: None,
        colors_min: None,
        colors_max: None,
        speed: Some(2),
        brightness: None,
        direction: None,
        color_mode: Some(color_mode),
        colors: vec![],
    };
    let channel = |name: &str| Zone {
        name: name.to_string(),
        zone_type: ZoneType::Linear,
        leds_min: 0,
        leds_max: 20,
        leds_count: 0,
        matrix: None,
    };
    assert_eq!(
        stream.read_value::<Controller>(DEFAULT_PROTOCOL).unwrap(),
        Controller {
            device_type: DeviceType::Cooler,
            name: "Thermaltake Riing".to_string(),
            vendor: "Thermaltake".to_string(),
            description: "Thermaltake Riing Device".to_string(),
            version: "".to_string(),
            serial: "".to_string(),
            location: "HID: /dev/hidraw10".to_string(),
            active_mode: 0,
            modes: vec![
                Mode {
                    name: "Direct".to_string(),
                    value: 24,
                    flags: ModeFlag::HasPerLEDColor.into(),
                    speed_min: None,
                    speed_max: None,
                    brightness_min: None,
                    brightness_max: None,
                    colors_min: None,
                    colors_max: None,
                    speed: None,
                    brightness: None,
                    direction: None,
                    color_mode: Some(ColorMode::PerLED),
                    colors: vec![],
                },
                Mode {
                    name: "Static".to_string(),
                    value: 25,
                    flags: ModeFlag::HasModeSpecificColor.into(),
                    speed_min: None,
                    speed_max: None,
                    brightness_min: None,
                    brightness_max: None,
                    colors_min: Some(1),
                    colors_max: Some(1),
                    speed: None,
                    brightness: None,
                    direction: None,
                    color_mode: Some(ColorMode::ModeSpecific),
                    colors: vec![Color { r: 0, g: 0, b: 0 }],
                },
                speed_mode("Flow", 0, ModeFlag::HasSpeed.into(), ColorMode::NoColor),
                speed_mode("Spectrum", 4, ModeFlag::HasSpeed.into(), ColorMode::NoColor),
                speed_mode(
                    "Ripple",
                    8,
                    ModeFlag::HasSpeed | ModeFlag::HasPerLEDColor,
                    ColorMode::PerLED
                ),
                speed_mode(
                    "Blink",
                    12,
                    ModeFlag::HasSpeed | ModeFlag::HasPerLEDColor,
                    ColorMode::PerLED
                ),
                speed_mode(
                    "Pulse",
                    16,
                    ModeFlag::HasSpeed | ModeFlag::HasPerLEDColor,
                    ColorMode::PerLED
                ),
                speed_mode(
                    "Wave",
                    20,
                    ModeFlag::HasSpeed | ModeFlag::HasPerLEDColor,
                    ColorMode::PerLED
                ),
            ],
            zones: vec![
                channel("Riing Channel 1"),
                channel("Riing Channel 2"),
                channel("Riing Channel 3"),
                channel("Riing Channel 4"),
                channel("Riing Channel 5"),
            ],
            leds: vec![],
            colors: vec![],
        }
    );
    assert_eq!(stream.remaining(), 0);
}

#[test]
fn small_controller() {
    let data = bytes(&[
        &0_u32.to_le_bytes(),  // declared size, not used
        &99_u32.to_le_bytes(), // device type that names nothing
        &[2, 0, b'a', 0],
        &[2, 0, b'b', 0],
        &[2, 0, b'c', 0],
        &[2, 0, b'd', 0],
        &[2, 0, b'e', 0],
        &[2, 0, b'f', 0],
        &0_u16.to_le_bytes(),    // number of modes
        &(-3_i32).to_le_bytes(), // active mode
        &0_u16.to_le_bytes(),    // zones
        &1_u16.to_le_bytes(),    // leds
        &[2, 0, b'l', 0],
        &7_u32.to_le_bytes(),
        &1_u16.to_le_bytes(), // colors
        &[9, 8, 7, 0],
    ]);
    let mut stream = ByteReader::new(data.clone());
    assert_eq!(
        stream.read_value::<Controller>(DEFAULT_PROTOCOL).unwrap(),
        Controller {
            device_type: DeviceType::Unknown,
            name: "a".to_string(),
            vendor: "b".to_string(),
            description: "c".to_string(),
            version: "d".to_string(),
            serial: "e".to_string(),
            location: "f".to_string(),
            active_mode: -3,
            modes: vec![],
            zones: vec![],
            leds: vec![LED { name: "l".to_string(), value: 7 }],
            colors: vec![Color { r: 9, g: 8, b: 7 }],
        }
    );
    assert_eq!(stream.remaining(), 0);
    for cut in [0, 3, 7, 10, 33, 38, data.len() - 1] {
        let mut short = data.clone();
        short.truncate(cut);
        assert!(matches!(
            ByteReader::new(short).read_value::<Controller>(DEFAULT_PROTOCOL),
            Err(OpenRGBError::CommunicationError { .. })
        ));
    }
}

#[test]
fn mode_with_too_long_a_name_is_refused_and_nothing_is_written() {
    let mut mode = full_mode();
    mode.name = "n".repeat(65535);
    let mut stream: Vec<u8> = vec![1, 2];
    match stream.write_value(mode, DEFAULT_PROTOCOL) {
        Err(OpenRGBError::ProtocolError(message)) => {
            assert_eq!(message, "String is too large to encode: 65535 bytes")
        }
        other => panic!("unexpected result: {:?}", other),
    }
    assert_eq!(stream, vec![1, 2]);
    let mut mode = full_mode();
    mode.name = "n".repeat(65534);
    let mut stream: Vec<u8> = Vec::new();
    stream.write_value(mode.clone(), DEFAULT_PROTOCOL).unwrap();
    assert_eq!(ByteReader::new(stream).read_value::<Mode>(DEFAULT_PROTOCOL).unwrap(), mode);
}
