use openrgb::data::{
    Color, ColorMode, Controller, DeviceType, Direction, FlagSet, Mode, ModeFlag,
};
use openrgb::stream::Exchange;
use openrgb::{OpenRGB, OpenRGBError, DEFAULT_PROTOCOL};

fn bytes(parts: &[&[u8]]) -> Vec<u8> {
    parts.concat()
}

fn header(device_id: u32, packet_id: u32, len: u32) -> Vec<u8> {
    bytes(&[b"ORGB", &device_id.to_le_bytes(), &packet_id.to_le_bytes(), &len.to_le_bytes()])
}

/// What the client sends to ask for the server's protocol version.
fn handshake_request() -> Vec<u8> {
    bytes(&[
        b"ORGB",                          // magic
        &0_u32.to_le_bytes(),             // device id
        &40_u32.to_le_bytes(),            // packet id
        &4_u32.to_le_bytes(),             // data size
        &DEFAULT_PROTOCOL.to_le_bytes(),  // protocol version
    ])
}

/// What a server that supports `protocol` answers.
fn handshake_reply(protocol: u32) -> Vec<u8> {
    bytes(&[
        b"ORGB",                  // magic
        &0_u32.to_le_bytes(),     // device id
        &40_u32.to_le_bytes(),    // packet id
        &4_u32.to_le_bytes(),     // data size
        &protocol.to_le_bytes(),  // protocol version
    ])
}

/// A client that has agreed on a version with a server that supports
/// `protocol` and will next receive `replies`.
fn client(protocol: u32, replies: &[u8]) -> OpenRGB<Exchange> {
    OpenRGB::new(Exchange::new(bytes(&[&handshake_reply(protocol), replies]))).unwrap()
}

/// What `client` has sent since the handshake.
fn sent(client: OpenRGB<Exchange>) -> Vec<u8> {
    let stream = client.into_stream();
    assert_eq!(stream.remaining(), 0);
    let all = stream.sent().clone();
    assert_eq!(&all[..20], &handshake_request()[..]);
    all[20..].to_vec()
}

fn assert_unsupported(r: Result<(), OpenRGBError>, name: &str, current: u32, required: u32) {
    match r {
        Err(OpenRGBError::UnsupportedOperation {
            operation,
            current_protocol_version,
            min_protocol_version,
        }) => {
            assert_eq!(operation, name);
            assert_eq!(current_protocol_version, current);
            assert_eq!(min_protocol_version, required);
        }
        other => panic!("unexpected result: {:?}", other),
    }
}

fn some_mode() -> Mode {
    Mode {
        name: "m".to_string(),
        value: 2,
        flags: FlagSet::from(ModeFlag::HasSpeed),
        speed_min: Some(1),
        speed_max: Some(9),
        brightness_min: None,
        brightness_max: None,
        colors_min: Some(0),
        colors_max: Some(4),
        speed: Some(5),
        brightness: None,
        direction: None,
        color_mode: Some(ColorMode::ModeSpecific),
        colors: vec![Color { r: 1, g: 2, b: 3 }],
    }
}

fn some_mode_bytes(protocol: u32) -> Vec<u8> {
    let words: &[u32] = if protocol >= 3 {
        &[2, 1, 1, 9, 0, 0, 0, 4, 5, 0, 0, 2]
    } else {
        &[2, 1, 1, 9, 0, 4, 5, 0, 2]
    };
    let words: Vec<u8> = words.iter().flat_map(|word| word.to_le_bytes()).collect();
    bytes(&[&[2, 0, b'm', 0], &words, &[1, 0, 1, 2, 3, 0]])
}

#[test]
fn test_negotiate_protocol_version_3() {
    let client = client(3, &[]);
    assert_eq!(client.get_protocol_version(), 3);
    assert_eq!(sent(client), Vec::<u8>::new());
}

#[test]
fn test_negotiate_protocol_version_2() {
    let client = client(2, &[]);
    assert_eq!(client.get_protocol_version(), 2);
    assert_eq!(sent(client), Vec::<u8>::new());
}

#[test]
fn negotiated_version_is_the_lower_one() {
    for (server, agreed) in [(0, 0), (1, 1), (2, 2), (3, 3), (4, 3), (100, 3), (u32::MAX, 3)] {
        assert_eq!(client(server, &[]).get_protocol_version(), agreed);
    }
}

#[test]
fn handshake_failures() {
    let r = OpenRGB::new(Exchange::new(b"ORGX".to_vec()));
    assert!(matches!(r, Err(OpenRGBError::ProtocolError(_))));
    let r = OpenRGB::new(Exchange::new(handshake_reply(3)[..19].to_vec()));
    assert!(matches!(r, Err(OpenRGBError::CommunicationError { .. })));
    let r = OpenRGB::new(Exchange::new(bytes(&[&header(0, 50, 4), &[3, 0, 0, 0]])));
    match r {
        Err(OpenRGBError::ProtocolError(message)) => assert_eq!(
            message,
            "expected packet ID RequestProtocolVersion, got SetClientName"
        ),
        _ => panic!("the handshake should have failed"),
    }
}

#[test]
fn test_set_name() {
    let mut client = client(DEFAULT_PROTOCOL, &[]);
    client.set_name("test".to_string()).unwrap();
    assert_eq!(
        sent(client),
        bytes(&[
            b"ORGB",               // magic
            &0_u32.to_le_bytes(),  // device id
            &50_u32.to_le_bytes(), // packet id
            &5_u32.to_le_bytes(),  // data size
            b"test\0",             // name
        ])
    );
}

#[test]
fn test_get_controller_count() {
    let mut client = client(DEFAULT_PROTOCOL, &bytes(&[&header(0, 0, 4), &7_u32.to_le_bytes()]));
    assert_eq!(client.get_controller_count().unwrap(), 7);
    assert_eq!(sent(client), header(0, 0, 0));
}

#[test]
fn test_get_controller() {
    let payload = bytes(&[
        &0_u32.to_le_bytes(),
        &5_u32.to_le_bytes(),
        &[2, 0, b'a', 0],
        &[1, 0, 0],
        &[1, 0, 0],
        &[1, 0, 0],
        &[1, 0, 0],
        &[1, 0, 0],
        &1_u16.to_le_bytes(),
        &0_i32.to_le_bytes(),
        &some_mode_bytes(2),
        &0_u16.to_le_bytes(),
        &0_u16.to_le_bytes(),
        &0_u16.to_le_bytes(),
    ]);
    let mut client = client(2, &bytes(&[&header(4, 1, payload.len() as u32), &payload]));
    let controller = client.get_controller(4).unwrap();
    assert_eq!(
        controller,
        Controller {
            device_type: DeviceType::Keyboard,
            name: "a".to_string(),
            vendor: String::new(),
            description: String::new(),
            version: String::new(),
            serial: String::new(),
            location: String::new(),
            active_mode: 0,
            modes: vec![some_mode()],
            zones: vec![],
            leds: vec![],
            colors: vec![],
        }
    );
    assert_eq!(sent(client), bytes(&[&header(4, 1, 4), &2_u32.to_le_bytes()]));
}

#[test]
fn test_resize_zone() {
    let mut client = client(DEFAULT_PROTOCOL, &[]);
    client.resize_zone(3, -4).unwrap();
    assert_eq!(
        sent(client),
        bytes(&[&header(0, 1000, 8), &3_i32.to_le_bytes(), &(-4_i32).to_le_bytes()])
    );
}

#[test]
fn test_update_led() {
    let mut client = client(DEFAULT_PROTOCOL, &[]);
    client.update_led(2, 5, Color { r: 9, g: 8, b: 7 }).unwrap();
    assert_eq!(sent(client), bytes(&[&header(2, 1052, 8), &5_i32.to_le_bytes(), &[9, 8, 7, 0]]));
}

#[test]
fn test_update_leds() {
    let mut client = client(DEFAULT_PROTOCOL, &[]);
    client.update_leds(2, vec![Color { r: 9, g: 8, b: 7 }, Color { r: 1, g: 2, b: 3 }]).unwrap();
    assert_eq!(
        sent(client),
        bytes(&[
            &header(2, 1050, 14),
            &10_u32.to_le_bytes(),
            &2_u16.to_le_bytes(),
            &[9, 8, 7, 0, 1, 2, 3, 0],
        ])
    );
}

#[test]
fn test_update_zone_leds() {
    let mut client = client(DEFAULT_PROTOCOL, &[]);
    client.update_zone_leds(2, 6, vec![Color { r: 9, g: 8, b: 7 }]).unwrap();
    assert_eq!(
        sent(client),
        bytes(&[
            &header(2, 1051, 14),
            &10_u32.to_le_bytes(),
            &6_u32.to_le_bytes(),
            &1_u16.to_le_bytes(),
            &[9, 8, 7, 0],
        ])
    );
}

#[test]
fn test_get_profiles() {
    let payload = bytes(&[
        &0_u32.to_le_bytes(),
        &2_u16.to_le_bytes(),
        &[4, 0, b'o', b'n', b'e', 0],
        &[4, 0, b't', b'w', b'o', 0],
    ]);
    let mut client = client(2, &bytes(&[&header(0, 150, payload.len() as u32), &payload]));
    assert_eq!(client.get_profiles().unwrap(), vec!["one".to_string(), "two".to_string()]);
    assert_eq!(sent(client), header(0, 150, 0));
}

#[test]
fn test_load_profile() {
    let mut client = client(2, &[]);
    client.load_profile("p".to_string()).unwrap();
    assert_eq!(sent(client), bytes(&[&header(0, 152, 4), &[2, 0, b'p', 0]]));
}

#[test]
fn test_save_profile() {
    let mut client = client(DEFAULT_PROTOCOL, &[]);
    client.save_profile("p".to_string()).unwrap();
    assert_eq!(sent(client), bytes(&[&header(0, 151, 4), &[2, 0, b'p', 0]]));
}

#[test]
fn test_delete_profile() {
    let mut client = client(DEFAULT_PROTOCOL, &[]);
    client.delete_profile("p".to_string()).unwrap();
    assert_eq!(sent(client), bytes(&[&header(0, 153, 4), &[2, 0, b'p', 0]]));
}

#[test]
fn test_set_custom_mode() {
    let mut client = client(DEFAULT_PROTOCOL, &[]);
    client.set_custom_mode(8).unwrap();
    assert_eq!(sent(client), header(8, 1100, 0));
}

#[test]
fn test_update_mode() {
    for protocol in [2_u32, 3] {
        let mut client = client(protocol, &[]);
        client.update_mode(1, 7, some_mode()).unwrap();
        let mode = some_mode_bytes(protocol);
        assert_eq!(
            sent(client),
            bytes(&[
                &header(1, 1101, mode.len() as u32 + 8),
                &(mode.len() as u32 + 4).to_le_bytes(),
                &7_i32.to_le_bytes(),
                &mode,
            ])
        );
    }
}

#[test]
fn test_save_mode() {
    let mut client = client(DEFAULT_PROTOCOL, &[]);
    client.save_mode(1, some_mode()).unwrap();
    let mode = some_mode_bytes(3);
    assert_eq!(sent(client), bytes(&[&header(1, 1102, mode.len() as u32), &mode]));
}

#[test]
fn profiles_need_protocol_2() {
    for protocol in [0_u32, 1] {
        let reply = bytes(&[&header(0, 150, 6), &[0, 0, 0, 0, 0, 0]]);
        let mut client = OpenRGB::with_protocol(protocol, Exchange::new(reply));
        match client.get_profiles() {
            Err(OpenRGBError::UnsupportedOperation {
                operation,
                current_protocol_version,
                min_protocol_version,
            }) => {
                assert_eq!(operation, "Profile control");
                assert_eq!(current_protocol_version, protocol);
                assert_eq!(min_protocol_version, 2);
            }
            other => panic!("unexpected result: {:?}", other),
        }
        assert_unsupported(client.load_profile("p".to_string()), "Profile control", protocol, 2);
        assert_unsupported(client.save_profile("p".to_string()), "Profile control", protocol, 2);
        assert_unsupported(client.delete_profile("p".to_string()), "Profile control", protocol, 2);
        assert_unsupported(
            client.check_protocol_version_profile_control(),
            "Profile control",
            protocol,
            2,
        );
        let stream = client.into_stream();
        assert_eq!(stream.sent(), &Vec::<u8>::new());
        assert_eq!(stream.remaining(), 22);
    }
    for protocol in [2_u32, 3, 4] {
        let client = OpenRGB::with_protocol(protocol, Exchange::new(vec![]));
        assert!(client.check_protocol_version_profile_control().is_ok());
    }
}

#[test]
fn saving_modes_needs_protocol_3() {
    for protocol in [0_u32, 1, 2] {
        let mut client = OpenRGB::with_protocol(protocol, Exchange::new(vec![1, 2, 3]));
        assert_unsupported(client.save_mode(0, some_mode()), "Saving modes", protocol, 3);
        assert_unsupported(
            client.check_protocol_version_saving_modes(),
            "Saving modes",
            protocol,
            3,
        );
        let stream = client.into_stream();
        assert_eq!(stream.sent(), &Vec::<u8>::new());
        assert_eq!(stream.remaining(), 3);
    }
    let client = OpenRGB::with_protocol(3, Exchange::new(vec![]));
    assert!(client.check_protocol_version_saving_modes().is_ok());
}

#[test]
fn operations_go_one_after_the_other() {
    let replies = bytes(&[
        &header(0, 0, 4),
        &1_u32.to_le_bytes(),
        &header(0, 0, 4),
        &2_u32.to_le_bytes(),
    ]);
    let mut client = client(DEFAULT_PROTOCOL, &replies);
    assert_eq!(client.get_controller_count().unwrap(), 1);
    client.set_custom_mode(0).unwrap();
    assert_eq!(client.get_controller_count().unwrap(), 2);
    assert_eq!(
        sent(client),
        bytes(&[&header(0, 0, 0), &header(0, 1100, 0), &header(0, 0, 0)])
    );
}

#[test]
fn direction_of_a_mode_is_sent_as_its_code() {
    let mut mode = some_mode();
    mode.direction = Some(Direction::Vertical);
    let mut client = client(2, &[]);
    client.update_mode(0, 0, mode).unwrap();
    let all = sent(client);
    assert_eq!(&all[16 + 8 + 4 + 28..16 + 8 + 4 + 32], &5_u32.to_le_bytes());
}

#[test]
fn negotiate_sends_the_handshake_and_returns_the_version() {
    for (server, agreed) in [(1_u32, 1_u32), (3, 3), (7, 3)] {
        let mut exchange = Exchange::new(bytes(&[&handshake_reply(server), &[42]]));
        assert_eq!(OpenRGB::negotiate(&mut exchange).unwrap(), agreed);
        assert_eq!(exchange.sent(), &handshake_request());
        assert_eq!(exchange.remaining(), 1);
    }
    let mut exchange = Exchange::new(Vec::new());
    assert!(matches!(
        OpenRGB::negotiate(&mut exchange),
        Err(OpenRGBError::CommunicationError { .. })
    ));
    assert_eq!(exchange.sent(), &handshake_request());
}

#[test]
fn oversized_payload_is_refused_and_nothing_is_sent() {
    let mut client = client(DEFAULT_PROTOCOL, &[]);
    let r = client.update_leds(0, vec![Color { r: 0, g: 0, b: 0 }; 65536]);
    assert!(matches!(r, Err(OpenRGBError::ProtocolError(_))));
    assert_eq!(sent(client), Vec::<u8>::new());
}

#[test]
fn profile_with_too_long_a_name_is_refused_and_nothing_is_sent() {
    let mut client = client(DEFAULT_PROTOCOL, &[]);
    let r = client.save_profile("p".repeat(65535));
    match r {
        Err(OpenRGBError::ProtocolError(message)) => {
            assert_eq!(message, "String is too large to encode: 65535 bytes")
        }
        other => panic!("unexpected result: {:?}", other),
    }
    assert_eq!(sent(client), Vec::<u8>::new());
}
