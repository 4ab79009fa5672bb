use aes::cipher::{KeyIvInit, StreamCipher};
use meshtastic_harvester::backoff::{Backoff, Reconnect, SessionEnd, INITIAL_DELAY, MAX_DELAY};
use meshtastic_harvester::cipher::{build_nonce, decrypt_data, decrypt_payload, default_channel_key};
use meshtastic_harvester::meshtastic::{
    decode_data, decode_envelope, decode_position, decode_telemetry, int_to_portnum, DecodeError,
    HarvesterError, PayloadVariant, PortNum, TelemetryVariant,
};
use meshtastic_harvester::publish::{handle, ClientId, Handled, ProcessError};
use meshtastic_harvester::utils::get_user_id;
use meshtastic_harvester::wire::read_varint;
use prost::encoding::{bytes, fixed32, float, int32, sfixed32, uint32};

const TOPIC: &str = "msh/2/c/LongFast/!abf849b0";

fn data_bytes(portnum: i32, payload: &[u8]) -> Vec<u8> {
    let mut b = Vec::new();
    int32::encode(1, &portnum, &mut b);
    bytes::encode(2, &payload.to_vec(), &mut b);
    b
}

fn position_bytes(lat: i32, lon: i32, altitude: i32, time: u32) -> Vec<u8> {
    let mut b = Vec::new();
    sfixed32::encode(1, &lat, &mut b);
    sfixed32::encode(2, &lon, &mut b);
    int32::encode(3, &altitude, &mut b);
    fixed32::encode(4, &time, &mut b);
    b
}

fn device_metrics_telemetry(time: u32, battery: u32, voltage: f32) -> Vec<u8> {
    let mut m = Vec::new();
    uint32::encode(1, &battery, &mut m);
    float::encode(2, &voltage, &mut m);
    let mut t = Vec::new();
    fixed32::encode(1, &time, &mut t);
    bytes::encode(2, &m, &mut t);
    t
}

fn packet_with_data(from: u32, id: u32, data: &[u8]) -> Vec<u8> {
    let mut p = Vec::new();
    fixed32::encode(1, &from, &mut p);
    fixed32::encode(2, &0xffff_ffffu32, &mut p);
    bytes::encode(4, &data.to_vec(), &mut p);
    fixed32::encode(6, &id, &mut p);
    p
}

fn packet_encrypted(from: u32, id: u32, enc: &[u8]) -> Vec<u8> {
    let mut p = Vec::new();
    fixed32::encode(1, &from, &mut p);
    bytes::encode(5, &enc.to_vec(), &mut p);
    fixed32::encode(6, &id, &mut p);
    p
}

fn envelope(packet: &[u8]) -> Vec<u8> {
    let mut e = Vec::new();
    bytes::encode(1, &packet.to_vec(), &mut e);
    prost::encoding::string::encode(2, &"LongFast".to_string(), &mut e);
    prost::encoding::string::encode(3, &"!abf849b0".to_string(), &mut e);
    e
}

#[test]
fn varint_reads_multi_byte_values() {
    assert_eq!(read_varint(&[0xac, 0x02], 0), Some((300, 2)));
    assert_eq!(read_varint(&[0x00, 0x7f], 1), Some((127, 1)));
    let mut b = Vec::new();
    prost::encoding::encode_varint(u64::MAX, &mut b);
    assert_eq!(read_varint(&b, 0), Some((u64::MAX, 10)));
}

#[test]
fn varint_rejects_truncated_and_overlong() {
    assert_eq!(read_varint(&[0x80, 0x80], 0), None);
    assert_eq!(read_varint(&[], 0), None);
    let eleven = [0xffu8; 11];
    assert_eq!(read_varint(&eleven, 0), None);
    let mut tenth_too_big = vec![0xffu8; 9];
    tenth_too_big.push(0x02);
    assert_eq!(read_varint(&tenth_too_big, 0), None);
}

#[test]
fn data_decodes_port_and_payload() {
    let d = decode_data(&data_bytes(3, &[1, 2, 3])).unwrap();
    assert_eq!(d.portnum, 3);
    assert_eq!(d.payload, vec![1, 2, 3]);
    let d = decode_data(&data_bytes(-5, &[])).unwrap();
    assert_eq!(d.portnum, -5);
    assert!(d.payload.is_empty());
}

#[test]
fn data_later_field_wins_and_unknown_fields_are_skipped() {
    let mut b = data_bytes(1, &[9]);
    fixed32::encode(4, &77u32, &mut b);
    int32::encode(1, &67, &mut b);
    let d = decode_data(&b).unwrap();
    assert_eq!(d.portnum, 67);
    assert_eq!(d.payload, vec![9]);
}

#[test]
fn data_with_wrong_wire_type_is_an_error() {
    let mut b = Vec::new();
    fixed32::encode(1, &3u32, &mut b);
    assert_eq!(decode_data(&b).unwrap_err(), DecodeError::Data);
    assert_eq!(decode_data(&[0x0a, 0x05, 0x01]).unwrap_err(), DecodeError::Data);
}

#[test]
fn position_degrees_from_fixed_point() {
    let p = decode_position(&position_bytes(371344705, -932760985, 368, 1707927571)).unwrap();
    assert_eq!(p.latitude_i, 371344705);
    assert_eq!(p.longitude_i, -932760985);
    assert_eq!(p.altitude, 368);
    assert_eq!(p.time, 1707927571);
    let lat = p.latitude_i as f64 * 0.0000001;
    let lon = p.longitude_i as f64 * 0.0000001;
    assert!((lat - 37.13447).abs() < 1e-5);
    assert!((lon - -93.27610).abs() < 1e-5);
}

#[test]
fn telemetry_device_metrics_decode() {
    let t = decode_telemetry(&device_metrics_telemetry(1700000000, 85, 3.7)).unwrap();
    assert_eq!(t.time, 1700000000);
    match t.variant {
        Some(TelemetryVariant::DeviceMetrics(m)) => {
            assert_eq!(m.battery_level, 85);
            assert_eq!(f32::from_bits(m.voltage_bits), 3.7);
        }
        other => panic!("unexpected variant {:?}", other),
    }
}

#[test]
fn known_ports_classify_to_distinct_kinds() {
    let table = [
        (0, PortNum::UnknownApp),
        (1, PortNum::TextMessageApp),
        (2, PortNum::RemoteHardwareApp),
        (3, PortNum::PositionApp),
        (4, PortNum::NodeinfoApp),
        (5, PortNum::RoutingApp),
        (6, PortNum::AdminApp),
        (7, PortNum::TextMessageCompressedApp),
        (8, PortNum::WaypointApp),
        (9, PortNum::AudioApp),
        (10, PortNum::DetectionSensorApp),
        (32, PortNum::ReplyApp),
        (33, PortNum::IpTunnelApp),
        (34, PortNum::PaxcounterApp),
        (64, PortNum::SerialApp),
        (65, PortNum::StoreForwardApp),
        (66, PortNum::RangeTestApp),
        (67, PortNum::TelemetryApp),
        (68, PortNum::ZpsApp),
        (69, PortNum::SimulatorApp),
        (70, PortNum::TracerouteApp),
        (71, PortNum::NeighborinfoApp),
        (72, PortNum::AtakPlugin),
        (256, PortNum::PrivateApp),
        (257, PortNum::AtakForwarder),
        (511, PortNum::Max),
    ];
    for (n, p) in table.iter() {
        assert_eq!(int_to_portnum(*n), Ok(*p));
    }
    for (i, (_, p)) in table.iter().enumerate() {
        for (_, q) in table.iter().skip(i + 1) {
            assert_ne!(p, q);
        }
    }
}

#[test]
fn unknown_ports_carry_their_number() {
    for n in [11, 31, 35, 73, 255, 258, 510, 512, -1, i32::MIN, i32::MAX] {
        assert_eq!(int_to_portnum(n), Err(HarvesterError::UnrecognizedPortNum(n)));
    }
}

#[test]
fn nonce_is_packet_id_then_sender_little_endian() {
    let n = build_nonce(0x0102030405060708, 0x1112131415161718);
    assert_eq!(
        n,
        vec![8, 7, 6, 5, 4, 3, 2, 1, 0x18, 0x17, 0x16, 0x15, 0x14, 0x13, 0x12, 0x11]
    );
}

#[test]
fn decrypt_matches_aes_ctr_keystream() {
    let plain = b"hello mesh".to_vec();
    let key = default_channel_key();
    let nonce = build_nonce(42, 0xabf849b0);
    let mut expected = plain.clone();
    let mut c = ctr::Ctr128LE::<aes::Aes128>::new(key.as_slice().into(), nonce.as_slice().into());
    c.apply_keystream(&mut expected);
    let got = decrypt_payload(42, 0xabf849b0, plain.clone());
    assert_eq!(got, expected);
    assert_ne!(got, plain);
}

#[test]
fn decrypt_round_trip() {
    let plain: Vec<u8> = (0u8..=200).collect();
    let enc = decrypt_payload(7, 9, plain.clone());
    assert_ne!(enc, plain);
    assert_eq!(decrypt_payload(7, 9, enc.clone()), plain);
    assert_ne!(decrypt_payload(8, 9, enc), plain);
}

#[test]
fn decrypt_empty_is_no_payload() {
    assert!(decrypt_payload(1, 2, Vec::new()).is_empty());
    assert!(matches!(decrypt_data(1, 2, Vec::new()), Ok(None)));
}

#[test]
fn decrypt_data_decodes_plaintext() {
    let data = data_bytes(1, b"hi");
    let enc = decrypt_payload(5, 6, data);
    let d = decrypt_data(5, 6, enc).unwrap().unwrap();
    assert_eq!(d.portnum, 1);
    assert_eq!(d.payload, b"hi".to_vec());
}

#[test]
fn envelope_decodes_packet() {
    let env = decode_envelope(&envelope(&packet_with_data(17, 99, &data_bytes(1, b"x")))).unwrap();
    let p = env.packet.unwrap();
    assert_eq!(p.from, 17);
    assert_eq!(p.id, 99);
    assert_eq!(p.to, 0xffff_ffff);
    match p.payload_variant {
        Some(PayloadVariant::Decoded(d)) => assert_eq!(d.payload, b"x".to_vec()),
        other => panic!("unexpected payload {:?}", other),
    }
}

#[test]
fn handle_position_produces_record() {
    let data = data_bytes(3, &position_bytes(371344705, -932760985, 368, 1707927571));
    let msg = envelope(&packet_with_data(0xabf849b0, 1, &data));
    match handle(TOPIC, &msg) {
        Ok(Handled::Position(r)) => {
            assert!(matches!(r.client, ClientId::Node(0xabf849b0)));
            assert_eq!(r.latitude_i, 371344705);
            assert_eq!(r.longitude_i, -932760985);
            assert_eq!(r.time.secs, 1707927571);
        }
        other => panic!("unexpected outcome {:?}", other),
    }
}

#[test]
fn handle_encrypted_telemetry_produces_one_record() {
    let data = data_bytes(67, &device_metrics_telemetry(1700000000, 85, 3.7));
    let enc = decrypt_payload(1234, 0x10, data);
    let msg = envelope(&packet_encrypted(0x10, 1234, &enc));
    match handle(TOPIC, &msg) {
        Ok(Handled::Telemetry(r)) => {
            assert!(matches!(r.client, ClientId::Node(0x10)));
            assert_eq!(r.battery_level, 85);
            assert_eq!(f32::from_bits(r.voltage_bits), 3.7);
            assert_eq!(r.time.secs, 1700000000);
        }
        other => panic!("unexpected outcome {:?}", other),
    }
}

#[test]
fn telemetry_without_variant_is_not_stored() {
    let mut t = Vec::new();
    fixed32::encode(1, &1700000000u32, &mut t);
    let msg = envelope(&packet_with_data(5, 1, &data_bytes(67, &t)));
    match handle(TOPIC, &msg) {
        Ok(Handled::TelemetryNotStored(t)) => {
            assert_eq!(t.time, 1700000000);
            assert!(t.variant.is_none());
        }
        other => panic!("unexpected outcome {:?}", other),
    }
}

#[test]
fn empty_packet_is_not_an_error() {
    let mut p = Vec::new();
    fixed32::encode(1, &5u32, &mut p);
    assert!(matches!(handle(TOPIC, &envelope(&p)), Ok(Handled::EmptyPacket)));
    assert!(matches!(handle(TOPIC, &[]), Ok(Handled::NoPacket)));
}

#[test]
fn garbage_envelope_then_valid_message() {
    assert!(matches!(
        handle(TOPIC, &[0x0a, 0x05, 0x01]),
        Err(ProcessError::Decode(DecodeError::Envelope))
    ));
    let garbage = [0x0a, 0xff, 0x01, 0x02];
    assert!(matches!(
        handle(TOPIC, &garbage),
        Err(ProcessError::Decode(DecodeError::Envelope))
    ));
    let good = envelope(&packet_with_data(3, 4, &data_bytes(5, &[])));
    assert!(matches!(handle(TOPIC, &good), Ok(Handled::Ignored(PortNum::RoutingApp))));
    let mut truncated = good.clone();
    truncated.truncate(good.len() - 20);
    assert!(matches!(
        handle(TOPIC, &truncated),
        Err(ProcessError::Decode(DecodeError::Envelope))
    ));
    assert!(matches!(handle(TOPIC, &good), Ok(Handled::Ignored(PortNum::RoutingApp))));
}

#[test]
fn unrecognized_port_is_reported() {
    let msg = envelope(&packet_with_data(3, 4, &data_bytes(1000, &[])));
    assert!(matches!(
        handle(TOPIC, &msg),
        Err(ProcessError::Harvester(HarvesterError::UnrecognizedPortNum(1000)))
    ));
}

#[test]
fn undecodable_ciphertext_is_dropped_quietly() {
    let enc = decrypt_payload(4, 3, vec![0x0a, 0x05]);
    let msg2 = envelope(&packet_encrypted(3, 4, &enc));
    assert!(matches!(handle(TOPIC, &msg2), Ok(Handled::Undecryptable)));
    assert!(matches!(
        handle(TOPIC, &envelope(&packet_encrypted(3, 4, &[]))),
        Ok(Handled::NoPayload)
    ));
}

#[test]
fn text_messages_must_be_utf8() {
    let ok = envelope(&packet_with_data(3, 4, &data_bytes(1, "héllo".as_bytes())));
    match handle(TOPIC, &ok) {
        Ok(Handled::Text(s)) => assert_eq!(s, "héllo"),
        other => panic!("unexpected outcome {:?}", other),
    }
    let bad = envelope(&packet_with_data(3, 4, &data_bytes(1, &[0xff, 0xfe])));
    assert!(matches!(handle(TOPIC, &bad), Err(ProcessError::InvalidText)));
}

#[test]
fn node_info_reads_node_number() {
    let mut n = Vec::new();
    uint32::encode(1, &0xabf849b0u32, &mut n);
    let msg = envelope(&packet_with_data(3, 4, &data_bytes(4, &n)));
    match handle(TOPIC, &msg) {
        Ok(Handled::NodeInfo(i)) => assert_eq!(i.num, 0xabf849b0),
        other => panic!("unexpected outcome {:?}", other),
    }
}

#[test]
fn other_topics_are_skipped() {
    let msg = envelope(&packet_with_data(3, 4, &data_bytes(1, b"x")));
    assert!(matches!(handle("msh/2/json/LongFast/!abf849b0", &msg), Ok(Handled::NotPacketTopic)));
}

#[test]
fn packet_without_sender_uses_topic_segment() {
    let data = data_bytes(3, &position_bytes(1, 2, 0, 10));
    let msg = envelope(&packet_with_data(0, 1, &data));
    match handle(TOPIC, &msg) {
        Ok(Handled::Position(r)) => match r.client {
            ClientId::Topic(t) => assert_eq!(t, b"!abf849b0".to_vec()),
            other => panic!("unexpected client {:?}", other),
        },
        other => panic!("unexpected outcome {:?}", other),
    }
}

#[test]
fn user_id_is_last_topic_segment() {
    assert_eq!(get_user_id("msh/2/c/LongFast/!abf849b0"), Some("!abf849b0"));
    assert_eq!(get_user_id("node"), Some("node"));
    assert_eq!(get_user_id("a/b/"), Some(""));
    assert_eq!(get_user_id("é/ü"), Some("ü"));
}

#[test]
fn backoff_grows_by_half_to_ceiling_and_resets() {
    let mut b = Backoff::standard();
    let expected = [
        5_000_000_000u64,
        7_500_000_000,
        11_250_000_000,
        16_875_000_000,
        25_312_500_000,
        37_968_750_000,
    ];
    for e in expected.iter() {
        assert_eq!(b.session_ended(SessionEnd::Failed), Reconnect::After(*e));
    }
    let mut last = 0;
    for _ in 0..20 {
        match b.session_ended(SessionEnd::Failed) {
            Reconnect::After(d) => {
                assert!(d >= last);
                assert!(d <= MAX_DELAY);
                last = d;
            }
            Reconnect::Now => panic!("a failure always sleeps"),
        }
    }
    assert_eq!(last, MAX_DELAY);
    assert_eq!(b.session_ended(SessionEnd::Closed), Reconnect::Now);
    assert_eq!(b.session_ended(SessionEnd::Failed), Reconnect::After(INITIAL_DELAY));
}
