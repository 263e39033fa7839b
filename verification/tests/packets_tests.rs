use starboard::packets::{deserialize, serialize, HapticPacket, InputPacket, OutputPacket, Packet};

#[test]
fn test_serialization() {
    let packet = InputPacket::default();

    let serialized_packet = serialize::<InputPacket>(packet).expect("Failed to serialize packet");

    let deserialized_packet =
        deserialize::<InputPacket>(serialized_packet).expect("Failed to deserialize packet");

    assert_eq!(InputPacket::default(), deserialized_packet);
}

#[test]
fn input_round_trip_concrete() {
    let packet = InputPacket::new(
        0b0010_0000_0000_0001,
        [1, -1, 300, -300, 70000, -70000, 1, 0],
        "2024,01,02,03,04,05,678,+0000".to_string(),
    );
    let bytes = serialize::<InputPacket>(packet).unwrap();
    let back = deserialize::<InputPacket>(bytes).unwrap();
    assert_eq!(back.key_states, 0b0010_0000_0000_0001);
    assert_eq!(back.abs_states, [1, -1, 300, -300, 70000, -70000, 1, 0]);
    assert_eq!(back.timestamp, "2024,01,02,03,04,05,678,+0000");
}

#[test]
fn input_round_trip_extremes() {
    let packet = InputPacket::new(
        u16::MAX,
        [i32::MAX, i32::MIN, 0, 250, 251, -251, 65536, -65536],
        String::new(),
    );
    let bytes = serialize::<InputPacket>(packet).unwrap();
    let back = deserialize::<InputPacket>(bytes).unwrap();
    assert_eq!(back.key_states, u16::MAX);
    assert_eq!(
        back.abs_states,
        [i32::MAX, i32::MIN, 0, 250, 251, -251, 65536, -65536]
    );
    assert_eq!(back.timestamp, "");
}

#[test]
fn input_decode_tolerates_trailing_bytes() {
    let packet = InputPacket::new(1, [0; 8], "t".to_string());
    let mut bytes = serialize::<InputPacket>(packet).unwrap();
    bytes.extend_from_slice(&[0u8; 64]);
    let back = deserialize::<InputPacket>(bytes).unwrap();
    assert_eq!(back.key_states, 1);
    assert_eq!(back.timestamp, "t");
}

#[test]
fn input_decode_failure_on_truncation() {
    let packet = InputPacket::new(1, [5; 8], "timestamp".to_string());
    let bytes = serialize::<InputPacket>(packet).unwrap();
    for cut in 0..bytes.len() {
        let truncated = bytes[..cut].to_vec();
        assert!(deserialize::<InputPacket>(truncated).is_err());
    }
}

#[test]
fn input_decode_failure_on_bad_marker() {
    // 254 is a marker for a width no field of the packet can hold.
    assert!(deserialize::<InputPacket>(vec![254, 0, 0, 0, 0]).is_err());
    assert!(deserialize::<InputPacket>(vec![]).is_err());
}

#[test]
fn input_decode_failure_on_invalid_utf8() {
    // key_states 0, eight zero axes, then a 1-byte string holding 0xFF.
    let bytes = vec![0u8, 0, 0, 0, 0, 0, 0, 0, 0, 1, 0xFF];
    assert!(deserialize::<InputPacket>(bytes).is_err());
}

#[test]
fn haptic_round_trip() {
    let strength: f32 = 0.75;
    let packet = HapticPacket::new(strength.to_bits(), "now".to_string());
    let bytes = serialize::<HapticPacket>(packet).unwrap();
    let back = deserialize::<HapticPacket>(bytes).unwrap();
    assert_eq!(f32::from_bits(back.strength_bits), 0.75);
    assert_eq!(back.timestamp, "now");
}

#[test]
fn output_packet_has_empty_wire_form() {
    let bytes = serialize::<OutputPacket>(OutputPacket {}).unwrap();
    assert!(bytes.is_empty());
    let back = deserialize::<OutputPacket>(bytes).unwrap();
    assert_eq!(back, OutputPacket {});
}

#[test]
fn wire_matches_bincode_input() {
    let conf = bincode::config::standard();
    let cases: Vec<(u16, [i32; 8], String)> = vec![
        (0, [0; 8], String::new()),
        (1, [1, -1, 0, 0, 0, 0, 1, -1], "x".to_string()),
        (
            0x2001,
            [100, 100, 0, 300, 0, 0, 0, 0],
            "2024,01,02,03,04,05,678,+0000".to_string(),
        ),
        (250, [250, 251, -250, -251, 65535, 65536, i32::MAX, i32::MIN], "a".repeat(300)),
        (u16::MAX, [7; 8], "héllo, wörld".to_string()),
    ];
    for (key_states, abs_states, timestamp) in cases {
        let theirs =
            bincode::encode_to_vec((key_states, abs_states, timestamp.clone()), conf).unwrap();
        let packet = InputPacket::new(key_states, abs_states, timestamp.clone());
        let ours = serialize::<InputPacket>(packet).unwrap();
        assert_eq!(ours, theirs, "encodings differ for key_states {key_states}");

        let ((k, a, t), used): ((u16, [i32; 8], String), usize) =
            bincode::decode_from_slice(&ours, conf).unwrap();
        assert_eq!(used, ours.len());
        assert_eq!(k, key_states);
        assert_eq!(a, abs_states);
        assert_eq!(t, timestamp);

        let back = deserialize::<InputPacket>(theirs).unwrap();
        assert_eq!(back.key_states, key_states);
        assert_eq!(back.abs_states, abs_states);
        assert_eq!(back.timestamp, timestamp);
    }
}

#[test]
fn wire_matches_bincode_haptic() {
    let conf = bincode::config::standard();
    let strengths: [f32; 4] = [0.0, 1.0, 0.5, f32::MAX];
    for strength in strengths {
        let timestamp = "2024,01,02,03,04,05,678,+0000".to_string();
        let theirs = bincode::encode_to_vec((strength, timestamp.clone()), conf).unwrap();
        let packet = HapticPacket::new(strength.to_bits(), timestamp.clone());
        let ours = serialize::<HapticPacket>(packet).unwrap();
        assert_eq!(ours, theirs);

        let back = deserialize::<HapticPacket>(theirs).unwrap();
        assert_eq!(f32::from_bits(back.strength_bits), strength);
        assert_eq!(back.timestamp, timestamp);
    }
}
