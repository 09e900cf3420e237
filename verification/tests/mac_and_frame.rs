use helium_multi_gateway::frame::{parse_lorawan_frame, FrameType};
use helium_multi_gateway::keys_dir::{key_file_name, key_stem, mac_to_key_name};
use helium_multi_gateway::mac::{bytes_to_hex, parse_mac_from_name, MacAddress};
use helium_multi_gateway::packet::PacketMetadata;

const MAC: MacAddress = MacAddress { bytes: [0xAA, 0xBB, 0xCC, 0xDD, 0xEE, 0xFF, 0x00, 0x11] };

#[test]
fn key_name_is_upper_case_hex() {
    assert_eq!(mac_to_key_name(&MAC), "AABBCCDDEEFF0011");
    assert_eq!(key_file_name(&MAC), "AABBCCDDEEFF0011.key");
    assert_eq!(bytes_to_hex(&[]), "");
    assert_eq!(bytes_to_hex(&[0x0f, 0xf0]), "0FF0");
}

#[test]
fn key_name_reads_back() {
    let mac = parse_mac_from_name(&mac_to_key_name(&MAC)).unwrap();
    assert_eq!(mac.bytes, MAC.bytes);
    let mac = parse_mac_from_name("aabbccddeeff0011").unwrap();
    assert_eq!(mac.bytes, MAC.bytes);
    assert_eq!(mac_to_key_name(&mac), "AABBCCDDEEFF0011");
}

#[test]
fn other_names_are_no_mac() {
    assert!(parse_mac_from_name("").is_none());
    assert!(parse_mac_from_name("AABBCCDDEEFF001").is_none());
    assert!(parse_mac_from_name("AABBCCDDEEFF00112").is_none());
    assert!(parse_mac_from_name("AABBCCDDEEFF001G").is_none());
    assert!(parse_mac_from_name("+ABBCCDDEEFF0011").is_none());
    assert!(parse_mac_from_name("AABBCCDDEEFF00\u{e9}").is_none());
}

#[test]
fn macs_have_different_numbers() {
    let other = MacAddress { bytes: [0xAA, 0xBB, 0xCC, 0xDD, 0xEE, 0xFF, 0x00, 0x12] };
    assert_ne!(MAC.key(), other.key());
    assert_eq!(MacAddress { bytes: [1, 0, 0, 0, 0, 0, 0, 0] }.key(), 1);
}

#[test]
fn key_files_end_in_the_suffix() {
    assert_eq!(key_stem("AABBCCDDEEFF0011.key").unwrap(), "AABBCCDDEEFF0011");
    assert_eq!(key_stem(".key").unwrap(), "");
    assert!(key_stem("key").is_none());
    assert!(key_stem("").is_none());
    assert!(key_stem("AABBCCDDEEFF0011.pem").is_none());
    assert_eq!(key_stem("\u{e9}.key").unwrap(), "\u{e9}");
}

#[test]
fn empty_frame_is_unknown() {
    assert_eq!(parse_lorawan_frame(&[]), (FrameType::Unknown, None, None, None));
}

#[test]
fn frame_types_follow_the_top_bits() {
    let types = [
        FrameType::JoinRequest,
        FrameType::JoinAccept,
        FrameType::UnconfirmedUp,
        FrameType::UnconfirmedDown,
        FrameType::ConfirmedUp,
        FrameType::ConfirmedDown,
        FrameType::RejoinRequest,
        FrameType::Proprietary,
    ];
    for (mtype, expected) in types.iter().enumerate() {
        let (frame_type, dev_addr, fcnt, fport) = parse_lorawan_frame(&[(mtype as u8) << 5 | 0x1f]);
        assert_eq!(frame_type, *expected);
        assert_eq!((dev_addr, fcnt, fport), (None, None, None));
    }
}

#[test]
fn data_frame_has_header_fields() {
    let frame = [0x40, 0x04, 0x03, 0x02, 0x01, 0x00, 0x34, 0x12, 0x07, 0xde, 0xad, 0xbe, 0xef];
    assert_eq!(
        parse_lorawan_frame(&frame),
        (FrameType::UnconfirmedUp, Some("01020304".to_string()), Some(0x1234), Some(7))
    );
    assert_eq!(
        parse_lorawan_frame(&frame[..12]),
        (FrameType::UnconfirmedUp, Some("01020304".to_string()), Some(0x1234), None)
    );
    assert_eq!(
        parse_lorawan_frame(&frame[..7]),
        (FrameType::UnconfirmedUp, None, None, None)
    );
}

#[test]
fn options_shift_the_port() {
    let frame = [0x80, 1, 2, 3, 4, 0xf2, 1, 0, 0xaa, 0xbb, 9, 1, 2, 3, 4];
    let (frame_type, _, fcnt, fport) = parse_lorawan_frame(&frame);
    assert_eq!(frame_type, FrameType::ConfirmedUp);
    assert_eq!(fcnt, Some(1));
    assert_eq!(fport, Some(9));
}

#[test]
fn join_requests_have_no_header_fields() {
    let frame = [0u8; 23];
    assert_eq!(parse_lorawan_frame(&frame), (FrameType::JoinRequest, None, None, None));
}

#[test]
fn metadata_of_a_packet() {
    let frame = [0x40, 0x04, 0x03, 0x02, 0x01, 0x00, 0x34, 0x12, 0x07, 0xde, 0xad, 0xbe, 0xef];
    let metadata = PacketMetadata::from_rxpk_data(
        -110,
        7.5f32.to_bits(),
        868.1f64.to_bits(),
        "SF7BW125".to_string(),
        &frame,
        Some(1_700_000_000_123),
    );
    assert_eq!(metadata.rssi, -110);
    assert_eq!(f32::from_bits(metadata.snr), 7.5);
    assert_eq!(f64::from_bits(metadata.frequency), 868.1);
    assert_eq!(metadata.spreading_factor, "SF7BW125");
    assert_eq!(metadata.payload_size, 13);
    assert_eq!(metadata.timestamp, 1_700_000_000_123);
    assert_eq!(metadata.frame_type, FrameType::UnconfirmedUp);
    assert_eq!(metadata.dev_addr.as_deref(), Some("01020304"));
    assert_eq!(metadata.fcnt, Some(0x1234));
    assert_eq!(metadata.fport, Some(7));
    let copy = metadata.clone();
    assert_eq!(copy.dev_addr, metadata.dev_addr);
    assert_eq!(copy.timestamp, metadata.timestamp);
}

#[test]
fn timestamp_of_an_odd_clock() {
    let at = |since_epoch| {
        PacketMetadata::from_rxpk_data(0, 0, 0, String::new(), &[], since_epoch).timestamp
    };
    assert_eq!(at(None), 0);
    assert_eq!(at(Some((1u128 << 64) + 5)), 5);
}
