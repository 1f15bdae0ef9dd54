use cherryrgb::protocol::{encode_report, inspect_response, Response, REPORT_SIZE};
use cherryrgb::{
    calc_checksum, Brightness, CherryRgbError, DecodeError, Keymap, LightingMode, OwnRGB8, Packet,
    Payload, PayloadType, Speed, ToVec, UsbPollingRate,
};

/// Some captured packets
fn packets() -> Vec<&'static str> {
    //                             brightness
    //     checksum                mode|speed      color
    //        |                     |  |  |         |
    //       vvv                    v  v  v         v
    vec![
        "04 69 01 06 09 00 00 55 00 00 03 02 00 01 FF", //       00 - wave - regular
        "04 6B 01 06 09 00 00 55 00 00 03 04 00 01 FF", //       01 - wave - slow
        "04 67 01 06 09 00 00 55 00 00 03 00 00 01 FF", //       02 - wave - fast
        "04 68 01 06 09 00 00 55 00 00 03 01 00 01 FF", //       03 - wave - another speed
        "04 69 01 06 09 00 00 55 00 01 03 01 00 01 FF", //       04 - spectrum - fast
        "04 68 01 06 09 00 00 55 00 01 03 00 00 01 FF", //       05 - spectrum - fastest
        "04 6C 01 06 09 00 00 55 00 01 03 04 00 01 FF", //       06 - spectrum - slow
        "04 6B 01 06 09 00 00 55 00 01 03 03 00 01 FF", //       07 - breathing
        "04 6C 01 06 09 00 00 55 00 02 03 03 00 01 FF", //       08 - breathing - slow
        "04 74 01 06 09 00 00 55 00 0A 03 03 00 01 FF", //       09 - Rolling
        "04 76 01 06 09 00 00 55 00 0C 03 03 00 01 FF", //       10 - Curve
        "04 79 01 06 09 00 00 55 00 0F 03 03 00 01 FF", //       11 - Scan
        "04 7C 01 06 09 00 00 55 00 12 03 03 00 01 FF", //       12 - Radiation
        "04 EE 01 06 09 00 00 55 00 12 03 03 00 00 7E 00 F4", // 13 - Radiation
        "04 EF 01 06 09 00 00 55 00 13 03 03 00 00 7E 00 F4", // 14 - Ripples - slow
        "04 EC 01 06 09 00 00 55 00 13 03 00 00 00 7E 00 F4", // 15 - Rippples - fast
        "04 EE 01 06 09 00 00 55 00 15 03 00 00 00 7E 00 F4", // 16 - Single Key
        "04 DC 01 06 09 00 00 55 00 03 03 00 00 00 7E 00 F4", // 17 - Static - Purple
        "04 4D 01 06 09 00 00 55 00 03 03 00 00 00 E0 03 00", // 18 - Static - Red
        "04 52 01 06 09 00 00 55 00 08 03 00 00 00 E0 03 00", // 19 - Custom
        // start / end transaction packets
        "04 01 00 01",
        "04 02 00 02",
        // fetch device info packets
        "04 25 00 03 22 00 00",
        "04 3f 00 07 38 00 00",
        "04 77 00 07 38 38 00",
        "04 af 00 07 38 70 00",
        "04 e7 00 07 38 a8 00",
        "04 1f 01 07 38 e0 00",
        "04 58 00 07 38 18 01",
        "04 82 00 07 2a 50 01",
        "04 53 00 1b 38 00 00",
        "04 8b 00 1b 38 38 00",
        "04 99 00 1b 0e 70 00",
        // Unknown
        "04 43 00 0b 38 00 00",
        "04 7b 00 0b 38 38 00",
        "04 b3 00 0b 38 70 00",
        "04 eb 00 0b 38 a8 00",
        "04 23 01 0b 38 e0 00",
        "04 5c 00 0b 38 18 01",
        "04 86 00 0b 2a 50 01",
    ]
}

fn animation(rainbow: u8, color: OwnRGB8) -> Payload {
    Payload::SetAnimation {
        unknown: [0x09, 0x00, 0x00, 0x55, 0x00],
        mode: LightingMode::Rain,
        brightness: Brightness::High,
        speed: Speed::Fast,
        pad: 0x0,
        rainbow,
        color,
    }
}

fn padded(mut bytes: Vec<u8>) -> Vec<u8> {
    bytes.resize(64, 0x00);
    bytes
}

#[test]
fn test_checksum() {
    for (index, &pkt_str) in packets().iter().enumerate() {
        let pkt = hex::decode(pkt_str.replace(' ', "")).expect("Failed to convert pkt hexstream");

        let expected_checksum: u16 = u16::from_le_bytes(
            pkt[1..3].try_into().expect("Failed to read checksum"),
        );
        let payload_type: u8 = *pkt.get(3).expect("Failed to read command");
        let calcd_checksum = calc_checksum(payload_type, &pkt[4..]);

        assert_eq!(
            expected_checksum, calcd_checksum,
            "Failed checksum for pkt {} data={:?}",
            index, pkt_str
        );
    }
}

#[test]
fn serialize_rgb8() {
    assert_eq!(OwnRGB8 { r: 232, g: 211, b: 75 }.to_vec(), vec![232, 211, 75]);
    assert_eq!(OwnRGB8 { r: 232, g: 0, b: 75 }.to_vec(), vec![232, 0, 75]);
    assert_eq!(OwnRGB8 { r: 0, g: 0, b: 75 }.to_vec(), vec![0, 0, 75]);
}

#[test]
fn serialize_led_animation_payload() {
    let buf: Vec<u8> = Payload::SetAnimation {
        unknown: [0x09, 0x00, 0x00, 0x55, 0x00],
        mode: LightingMode::Vortex,
        brightness: Brightness::Full,
        speed: Speed::VerySlow,
        pad: 0x0,
        rainbow: 0,
        color: OwnRGB8::new(244, 255, 100),
    }
    .to_vec();
    assert_eq!(
        vec![0x09, 0x00, 0x00, 0x55, 0x00, 0x05, 0x04, 0x04, 0x00, 0x00, 0xF4, 0xFF, 0x64],
        buf
    );
    let buf: Vec<u8> = Payload::SetAnimation {
        unknown: [0x09, 0x00, 0x00, 0x55, 0x00],
        mode: LightingMode::Vortex,
        brightness: Brightness::Full,
        speed: Speed::VerySlow,
        pad: 0x0,
        rainbow: 1,
        color: OwnRGB8::new(244, 255, 100),
    }
    .to_vec();
    assert_eq!(
        vec![0x09, 0x00, 0x00, 0x55, 0x00, 0x05, 0x04, 0x04, 0x00, 0x01, 0xF4, 0xFF, 0x64],
        buf
    );
    let buf: Vec<u8> = Payload::SetAnimation {
        unknown: [0x09, 0x00, 0x00, 0x55, 0x00],
        mode: LightingMode::Rolling,
        brightness: Brightness::Full,
        speed: Speed::VerySlow,
        pad: 0x0,
        rainbow: 0,
        color: OwnRGB8::new(244, 255, 100),
    }
    .to_vec();
    assert_eq!(
        vec![0x09, 0x00, 0x00, 0x55, 0x00, 0x0A, 0x04, 0x04, 0x00, 0x00, 0xF4, 0xFF, 0x64],
        buf
    );
    let buf: Vec<u8> = Payload::SetAnimation {
        unknown: [0x09, 0x00, 0x00, 0x55, 0x00],
        mode: LightingMode::Vortex,
        brightness: Brightness::Full,
        speed: Speed::Medium,
        pad: 0x0,
        rainbow: 0,
        color: OwnRGB8::new(244, 255, 100),
    }
    .to_vec();
    assert_eq!(
        vec![0x09, 0x00, 0x00, 0x55, 0x00, 0x05, 0x04, 0x02, 0x00, 0x00, 0xF4, 0xFF, 0x64],
        buf
    );
    let buf: Vec<u8> = Payload::SetAnimation {
        unknown: [0x09, 0x00, 0x00, 0x55, 0x00],
        mode: LightingMode::Vortex,
        brightness: Brightness::Low,
        speed: Speed::Medium,
        pad: 0x0,
        rainbow: 0,
        color: OwnRGB8::new(244, 255, 100),
    }
    .to_vec();
    assert_eq!(
        vec![0x09, 0x00, 0x00, 0x55, 0x00, 0x05, 0x01, 0x02, 0x00, 0x00, 0xF4, 0xFF, 0x64],
        buf
    );
}

#[test]
fn prep_packet() {
    let packet = Packet::new(Payload::TransactionStart).to_vec();
    assert_eq!(packet[..4], vec![0x04, 0x01, 0x00, 0x01]);

    let packet = Packet::new(Payload::SetAnimation {
        unknown: [0x01, 0x18, 0x00, 0x55, 0x01],
        // Everything after unknown is nulled
        mode: LightingMode::Wave,
        brightness: Brightness::Off,
        speed: Speed::VeryFast,
        pad: 0x0,
        rainbow: 0x0,
        color: OwnRGB8::new(0, 0, 0x42),
    })
    .to_vec();

    assert_eq!(
        packet[..17],
        vec![
            0x04, 0xB7, 0x00, 0x06, 0x01, 0x18, 0x00, 0x55, 0x01, 0x00, 0x00, 0x00, 0x00, 0x00,
            0x00, 0x00, 0x42
        ]
    );
}

#[test]
fn unhandled_packet() {
    let packet = b"\x04\xEE\x01\x42\x09\x00\x00\x55\x00\x12\x03\x03\x00\x00\x7E\x00\xF4";
    let deserialized: Packet<Payload> =
        Packet::decode(packet).expect("Failed reading unhandled packet");

    assert_eq!(deserialized.checksum(), 0x1EE);
    // Unknown payload types get mapped to 0xFF
    assert_eq!(deserialized.payload().payload_type(), 0xFF);
    match deserialized.payload() {
        Payload::Unhandled { data } => {
            assert_eq!(
                data[..],
                b"\x09\x00\x00\x55\x00\x12\x03\x03\x00\x00\x7E\x00\xF4"[..]
            );
        }
        _ => {
            assert_eq!(1, 2)
        }
    }
}

#[test]
fn checksum_is_type_plus_body_bytes() {
    assert_eq!(calc_checksum(0x01, &[]), 0x0001);
    assert_eq!(calc_checksum(0x06, &[0x09, 0x00, 0x00, 0x55, 0x00, 0x00, 0x03, 0x02, 0x00, 0x01, 0xFF]), 0x0169);
    assert_eq!(calc_checksum(0xFF, &[0xFF]), 0x01FE);
}

#[test]
fn checksum_wraps_at_sixteen_bits() {
    let body = vec![0xFFu8; 257];
    // 257 * 255 = 65535, and the payload type 2 on top wraps to 1.
    assert_eq!(calc_checksum(0x02, &body), 0x0001);
    assert_eq!(calc_checksum(0x00, &body), 0xFFFF);
}

#[test]
fn payload_types_are_those_of_the_wire() {
    assert_eq!(Payload::TransactionStart.payload_type(), 0x01);
    assert_eq!(Payload::TransactionEnd.payload_type(), 0x02);
    assert_eq!(Payload::Unknown3 { unk: 0x22 }.payload_type(), 0x03);
    assert_eq!(Payload::Unknown5 { unk: 0x01 }.payload_type(), 0x05);
    assert_eq!(animation(0, OwnRGB8::new(1, 2, 3)).payload_type(), 0x06);
    assert_eq!(
        Payload::GetKeymap { data_len: 1, data_offset: 0, padding: 0, keymap: vec![7] }
            .payload_type(),
        0x07
    );
    assert_eq!(
        Payload::SetCustomLED { data_offset: 0, padding: 0, key_leds_data: vec![] }.payload_type(),
        0x0B
    );
    assert_eq!(
        Payload::GetKeyIndexes { data_len: 0, data_offset: 0, padding: 0, key_data: vec![] }
            .payload_type(),
        0x1B
    );
    assert_eq!(Payload::Unhandled { data: vec![1, 2] }.payload_type(), 0xFF);
}

#[test]
fn enum_bytes_are_those_of_the_wire() {
    let modes = [
        (LightingMode::Wave, 0x00u8),
        (LightingMode::Spectrum, 0x01),
        (LightingMode::Breathing, 0x02),
        (LightingMode::Static, 0x03),
        (LightingMode::Radar, 0x04),
        (LightingMode::Vortex, 0x05),
        (LightingMode::Fire, 0x06),
        (LightingMode::Stars, 0x07),
        (LightingMode::Rain, 0x0B),
        (LightingMode::Custom, 0x08),
        (LightingMode::Rolling, 0x0A),
        (LightingMode::Curve, 0x0C),
        (LightingMode::WaveMid, 0x0E),
        (LightingMode::Scan, 0x0F),
        (LightingMode::Radiation, 0x12),
        (LightingMode::Ripples, 0x13),
        (LightingMode::SingleKey, 0x15),
    ];
    for (mode, byte) in modes {
        assert_eq!(mode.to_u8(), byte);
        assert_eq!(mode.to_vec(), vec![byte]);
        assert_eq!(LightingMode::from_u8(byte), Ok(mode));
    }
    for byte in [0x09u8, 0x0D, 0x10, 0x11, 0x14, 0x16, 0xFF] {
        assert_eq!(
            LightingMode::from_u8(byte),
            Err(DecodeError::UnknownLightingMode { value: byte })
        );
    }
    let speeds = [Speed::VeryFast, Speed::Fast, Speed::Medium, Speed::Slow, Speed::VerySlow];
    let levels = [
        Brightness::Off,
        Brightness::Low,
        Brightness::Medium,
        Brightness::High,
        Brightness::Full,
    ];
    for byte in 0u8..5 {
        assert_eq!(speeds[byte as usize].to_u8(), byte);
        assert_eq!(Speed::from_u8(byte), Ok(speeds[byte as usize]));
        assert_eq!(levels[byte as usize].to_u8(), byte);
        assert_eq!(Brightness::from_u8(byte), Ok(levels[byte as usize]));
    }
    assert_eq!(Speed::from_u8(5), Err(DecodeError::UnknownSpeed { value: 5 }));
    assert_eq!(Brightness::from_u8(5), Err(DecodeError::UnknownBrightness { value: 5 }));
    let rates = [
        UsbPollingRate::Low,
        UsbPollingRate::Medium,
        UsbPollingRate::High,
        UsbPollingRate::Full,
    ];
    for byte in 0u8..4 {
        assert_eq!(rates[byte as usize].to_vec(), vec![byte]);
        assert_eq!(UsbPollingRate::from_u8(byte), Ok(rates[byte as usize]));
    }
    assert_eq!(
        UsbPollingRate::from_u8(4),
        Err(DecodeError::UnknownPollingRate { value: 4 })
    );
}

#[test]
fn keymap_is_three_bytes() {
    let keymap = Keymap { modifier: 1, unk: 2, keycode: 3 };
    assert_eq!(keymap.to_vec(), vec![1, 2, 3]);
    assert_eq!(Keymap::from_bytes([1, 2, 3]), keymap);
}

#[test]
fn color_bytes_round_trip() {
    let color = OwnRGB8::from_bytes([9, 8, 7]);
    assert_eq!(color, OwnRGB8::new(9, 8, 7));
    assert_eq!(color.to_vec(), vec![9, 8, 7]);
    assert_eq!(OwnRGB8::default(), OwnRGB8::new(0, 0, 0));
}

#[test]
fn chunk_payloads_write_the_length_of_their_data() {
    let payload = Payload::SetCustomLED {
        data_offset: 0x0150,
        padding: 0,
        key_leds_data: vec![0xAA, 0xBB, 0xCC],
    };
    assert_eq!(payload.to_vec(), vec![0x03, 0x50, 0x01, 0x00, 0xAA, 0xBB, 0xCC]);
    // A query says how much it asks for and carries no data.
    let query = Payload::GetKeymap { data_len: 0x38, data_offset: 0x118, padding: 0, keymap: vec![] };
    assert_eq!(query.to_vec(), vec![0x38, 0x18, 0x01, 0x00]);
    let long = Payload::SetCustomLED { data_offset: 0, padding: 0, key_leds_data: vec![1; 258] };
    assert_eq!(long.to_vec()[0], 2);
    assert_eq!(long.to_vec().len(), 4 + 258);
}

#[test]
fn packets_round_trip() {
    let payloads = vec![
        Payload::TransactionStart,
        Payload::TransactionEnd,
        Payload::Unknown3 { unk: 0x22 },
        Payload::Unknown5 { unk: 0x19 },
        Payload::GetKeymap { data_len: 3, data_offset: 0x0138, padding: 7, keymap: vec![1, 2, 3] },
        animation(1, OwnRGB8::new(0xF4, 0xFF, 0x64)),
        Payload::SetCustomLED { data_offset: 336, padding: 0, key_leds_data: vec![5; 42] },
        Payload::GetKeyIndexes { data_len: 0, data_offset: 0, padding: 0, key_data: vec![] },
        Payload::Unhandled { data: vec![0xDE, 0xAD] },
    ];
    for payload in payloads {
        let packet = Packet::new(payload.clone());
        assert_eq!(packet.verify_checksum(), Ok(()));
        assert_eq!(packet.payload(), &payload);
        let decoded = Packet::decode(&packet.to_vec()).expect("a packet decodes from its bytes");
        assert_eq!(decoded, packet);
        assert_eq!(decoded.to_vec(), packet.to_vec());
        assert_eq!(Payload::decode(payload.payload_type(), &payload.to_vec()), payload);
    }
}

#[test]
fn padded_reports_round_trip() {
    let payloads = vec![
        Payload::TransactionStart,
        Payload::Unknown3 { unk: 0x22 },
        animation(0, OwnRGB8::new(1, 2, 3)),
        Payload::SetCustomLED { data_offset: 56, padding: 0, key_leds_data: vec![9; 56] },
    ];
    for payload in payloads {
        let report = encode_report(&payload);
        assert_eq!(report.len(), REPORT_SIZE);
        assert_eq!(report, padded(Packet::new(payload.clone()).to_vec()));
        match inspect_response(&report) {
            Response::Verified(packet) => assert_eq!(packet.payload(), &payload),
            other => panic!("a report is a valid packet: {:?}", other),
        }
    }
}

#[test]
fn report_cuts_what_does_not_fit() {
    let payload = Payload::Unhandled { data: vec![0x11; 100] };
    let report = encode_report(&payload);
    assert_eq!(report.len(), 64);
    assert_eq!(report[..], Packet::new(payload).to_vec()[..64]);
}

#[test]
fn query_does_not_round_trip() {
    // The query announces 56 bytes and carries none, so its bytes hold no
    // complete chunk: they decode as a payload of unknown type.
    let query = Payload::GetKeymap { data_len: 0x38, data_offset: 0, padding: 0, keymap: vec![] };
    let decoded = Packet::decode(&Packet::new(query).to_vec()).expect("the header is complete");
    assert_eq!(decoded.payload(), &Payload::Unhandled { data: vec![0x38, 0x00, 0x00, 0x00] });
    // In a report, the zero bytes behind the query are read as its data.
    let report = padded(vec![0x04, 0x3F, 0x00, 0x07, 0x38, 0x00, 0x00, 0x00]);
    let decoded = Packet::decode(&report).expect("the header is complete");
    assert_eq!(
        decoded.payload(),
        &Payload::GetKeymap { data_len: 0x38, data_offset: 0, padding: 0, keymap: vec![0; 56] }
    );
    assert_eq!(decoded.verify_checksum(), Ok(()));
}

#[test]
fn captured_animation_frame_decodes() {
    let frame = padded(vec![
        0x04, 0x69, 0x01, 0x06, 0x09, 0x00, 0x00, 0x55, 0x00, 0x00, 0x03, 0x02, 0x00, 0x01, 0xFF,
    ]);
    let packet = Packet::decode(&frame).expect("the frame is a packet");
    assert_eq!(packet.checksum(), 0x0169);
    assert_eq!(packet.payload().payload_type(), 0x06);
    assert_eq!(
        packet.payload(),
        &Payload::SetAnimation {
            unknown: [0x09, 0x00, 0x00, 0x55, 0x00],
            mode: LightingMode::Wave,
            brightness: Brightness::High,
            speed: Speed::Medium,
            pad: 0,
            rainbow: 1,
            color: OwnRGB8::new(255, 0, 0),
        }
    );
    assert_eq!(packet.verify_checksum(), Ok(()));
}

#[test]
fn decode_rejects_bad_magic_and_short_headers() {
    assert_eq!(Packet::decode(&[]), Err(DecodeError::UnexpectedEof));
    assert_eq!(Packet::decode(&[0x04]), Err(DecodeError::UnexpectedEof));
    assert_eq!(Packet::decode(&[0x04, 0x01, 0x00]), Err(DecodeError::UnexpectedEof));
    assert_eq!(Packet::decode(&[0x05]), Err(DecodeError::BadMagic { found: 0x05 }));
    assert_eq!(
        Packet::decode(&[0x00, 0x01, 0x00, 0x01]),
        Err(DecodeError::BadMagic { found: 0x00 })
    );
    assert_eq!(Packet::decode(&[0x04, 0x01, 0x00, 0x01]), Ok(Packet::new(Payload::TransactionStart)));
}

#[test]
fn body_that_does_not_fit_its_type_is_unhandled() {
    // An animation with a mode byte outside the table.
    let mut body = animation(0, OwnRGB8::new(1, 2, 3)).to_vec();
    body[5] = 0x09;
    assert_eq!(Payload::decode(0x06, &body), Payload::Unhandled { data: body.clone() });
    body[5] = 0x00;
    body[6] = 0x05;
    assert_eq!(Payload::decode(0x06, &body), Payload::Unhandled { data: body.clone() });
    body[6] = 0x00;
    body[7] = 0x05;
    assert_eq!(Payload::decode(0x06, &body), Payload::Unhandled { data: body.clone() });
    // An animation that ends early.
    assert_eq!(Payload::decode(0x06, &body[..12]), Payload::Unhandled { data: body[..12].to_vec() });
    // Queries without their byte.
    assert_eq!(Payload::decode(0x03, &[]), Payload::Unhandled { data: vec![] });
    assert_eq!(Payload::decode(0x05, &[]), Payload::Unhandled { data: vec![] });
    // A chunk that announces more than there is.
    assert_eq!(
        Payload::decode(0x0B, &[2, 0, 0, 0, 1]),
        Payload::Unhandled { data: vec![2, 0, 0, 0, 1] }
    );
    assert_eq!(Payload::decode(0x1B, &[0, 0, 0]), Payload::Unhandled { data: vec![0, 0, 0] });
    // Transaction markers have no body to miss.
    assert_eq!(Payload::decode(0x01, &[1, 2, 3]), Payload::TransactionStart);
    assert_eq!(Payload::decode(0x02, &[]), Payload::TransactionEnd);
    // An unhandled payload fails the checksum of its packet where the type was known.
    let packet = Packet::decode(&[0x04, 0x03, 0x00, 0x03]).expect("the header is complete");
    assert_eq!(packet.payload(), &Payload::Unhandled { data: vec![] });
    assert!(packet.verify_checksum().is_err());
}

#[test]
fn flipped_checksum_bit_fails_verification() {
    let payloads = vec![
        Payload::TransactionStart,
        animation(1, OwnRGB8::new(10, 20, 30)),
        Payload::SetCustomLED { data_offset: 112, padding: 0, key_leds_data: vec![0xFF; 56] },
    ];
    for payload in payloads {
        let bytes = Packet::new(payload.clone()).to_vec();
        for index in 1..3 {
            for bit in 0..8 {
                let mut damaged = bytes.clone();
                damaged[index] ^= 1 << bit;
                let packet = Packet::decode(&damaged).expect("the header is intact");
                assert_eq!(packet.payload(), &payload);
                assert!(packet.verify_checksum().is_err());
                match inspect_response(&damaged) {
                    Response::Corrupt { .. } => {}
                    other => panic!("the checksum is wrong: {:?}", other),
                }
            }
        }
    }
}

#[test]
fn checksum_error_carries_both_values_and_the_payload() {
    // The checksum should be 0x0025.
    let packet = Packet::decode(&[0x04, 0x26, 0x00, 0x03, 0x22]).expect("the header is complete");
    assert_eq!(
        packet.verify_checksum(),
        Err(CherryRgbError::ChecksumError {
            expected: 0x0026,
            calculated: 0x0025,
            data: "22".to_string(),
        })
    );
    let packet = Packet::decode(&[0x04, 0x00, 0x00, 0x42, 0x0A, 0xBC, 0xFF, 0x00])
        .expect("the header is complete");
    assert_eq!(
        packet.verify_checksum(),
        Err(CherryRgbError::ChecksumError {
            expected: 0x0000,
            calculated: 0xFF + 0x0A + 0xBC + 0xFF,
            data: "0abcff00".to_string(),
        })
    );
}

#[test]
fn unknown_type_is_lost_when_encoded_again() {
    let bytes = vec![0x04, 0x4B, 0x00, 0x42, 0x09, 0x00];
    let packet = Packet::decode(&bytes).expect("the header is complete");
    assert_eq!(packet.checksum(), 0x004B);
    assert_eq!(packet.verify_checksum().is_err(), true);
    // Encoded again, the body stands under the type 0xFF with its checksum.
    assert_eq!(packet.to_vec(), vec![0x04, 0x08, 0x01, 0xFF, 0x09, 0x00]);
}

#[test]
fn malformed_response_is_reported() {
    assert_eq!(inspect_response(&[0x07; 64]), Response::Malformed(DecodeError::BadMagic { found: 7 }));
    assert_eq!(inspect_response(&[]), Response::Malformed(DecodeError::UnexpectedEof));
}

#[test]
fn clones_are_equal() {
    let payload = Payload::GetKeyIndexes { data_len: 2, data_offset: 0x70, padding: 0, key_data: vec![1, 2] };
    assert_eq!(payload.clone(), payload);
    let packet = Packet::decode(&[0x04, 0x34, 0x12, 0x0B, 0x01, 0x00, 0x00, 0x00, 0x09])
        .expect("the header is complete");
    assert_eq!(packet.checksum(), 0x1234);
    assert_eq!(packet.clone(), packet);
    assert_eq!(packet.clone().checksum(), 0x1234);
}
