use aacp::codec::{
    encode_add_tipi_device, encode_control_command, encode_handshake, encode_hijack_request,
    encode_hijack_reversed, encode_media_information, encode_media_information_new_device,
    encode_notification_request, encode_proximity_keys_request, encode_rename,
    encode_set_feature_flags, encode_smart_routing_show_ui, encode_ssl_probe, frame_data_packet,
};
use aacp::connection::{connect_step, ConnectAction, ConnectEvent, ConnectPhase};
use aacp::mac::{format_mac, parse_mac};
use aacp::parser::{
    parse_audio_source, parse_battery_info, parse_connected_devices, parse_control_command,
    parse_information, parse_proximity_keys, trim_control_value,
};
use aacp::session::AACPManagerState;
use aacp::types::{
    AACPEvent, AacpError, AudioSourceType, BatteryComponent, BatteryInfo, BatteryStatus,
    ControlCommandIdentifiers, DeviceData, DeviceInformation, DeviceType, EarDetectionStatus, ProximityKeyType,
};

fn fresh() -> AACPManagerState {
    AACPManagerState::new(Vec::new()).unwrap()
}

fn with_peer(mac: &str) -> AACPManagerState {
    let mut s = fresh();
    s.set_peer(mac.to_string());
    s
}

#[test]
fn battery_frame_replaces_levels() {
    let mut s = fresh();
    let frame = [0x04, 0x00, 0x04, 0x00, 0x04, 0x00, 0x02, 0x04, 0x01, 0x32, 0x01, 0x00, 0x02, 0x01, 0x28, 0x02, 0x00];
    let r = s.receive_packet(&frame);
    let expected = vec![
        BatteryInfo { component: BatteryComponent::Left, level: 0x32, status: BatteryStatus::Charging },
        BatteryInfo { component: BatteryComponent::Right, level: 0x28, status: BatteryStatus::NotCharging },
    ];
    match r.event {
        Some(AACPEvent::BatteryInfo(v)) => assert_eq!(v, expected),
        other => panic!("unexpected event {:?}", other),
    }
    assert_eq!(s.battery_info, expected);
}

#[test]
fn battery_unknown_entry_skipped_and_short_rejected() {
    let payload = [0x04, 0x00, 0x02, 0x09, 0x01, 0x32, 0x01, 0x00, 0x08, 0x01, 0x10, 0x04, 0x00];
    let v = parse_battery_info(&payload).unwrap();
    assert_eq!(v, vec![BatteryInfo { component: BatteryComponent::Case, level: 0x10, status: BatteryStatus::Disconnected }]);
    assert!(parse_battery_info(&[0x04, 0x00, 0x02, 0x04]).is_none());
    assert!(parse_battery_info(&[0x04, 0x00]).is_none());
}

#[test]
fn control_command_value_is_trimmed() {
    let mut s = fresh();
    let r = s.receive_packet(&[0x04, 0x00, 0x04, 0x00, 0x09, 0x00, 0x14, 0x03, 0x00, 0x00, 0x00]);
    assert_eq!(s.control_command_status_list.len(), 1);
    assert_eq!(s.control_command_status_list[0].identifier, ControlCommandIdentifiers::SingleClickMode);
    assert_eq!(s.control_command_status_list[0].value, vec![0x03]);
    assert!(!s.owns);
    match r.event {
        Some(AACPEvent::ControlCommand(st)) => assert_eq!(st.value, vec![0x03]),
        other => panic!("unexpected event {:?}", other),
    }
}

#[test]
fn ownership_follows_control_command() {
    let mut s = fresh();
    s.receive_packet(&[0x04, 0x00, 0x04, 0x00, 0x09, 0x00, 0x06, 0x01, 0x00, 0x00, 0x00]);
    assert!(s.owns);
    s.receive_packet(&[0x04, 0x00, 0x04, 0x00, 0x09, 0x00, 0x06, 0x00, 0x00, 0x00, 0x00]);
    assert!(!s.owns);
    assert_eq!(s.control_command_status_list.len(), 1);
    assert_eq!(s.control_command_status_list[0].value, vec![0x00]);
}

#[test]
fn control_command_unknown_identifier_ignored() {
    let mut s = fresh();
    let r = s.receive_packet(&[0x04, 0x00, 0x04, 0x00, 0x09, 0x00, 0x02, 0x01, 0x00, 0x00, 0x00]);
    assert!(r.event.is_none());
    assert!(s.control_command_status_list.is_empty());
}

#[test]
fn control_value_trimming() {
    assert_eq!(trim_control_value(&[0x01, 0x00, 0x02, 0x00]), vec![0x01, 0x00, 0x02]);
    assert_eq!(trim_control_value(&[0x00, 0x00, 0x00, 0x00]), vec![0x00]);
    assert_eq!(trim_control_value(&[0x00, 0x00, 0x00, 0x07]), vec![0x00, 0x00, 0x00, 0x07]);
}

#[test]
fn shadow_keeps_one_entry_per_identifier() {
    let mut s = fresh();
    s.receive_packet(&[0x04, 0x00, 0x04, 0x00, 0x09, 0x00, 0x0D, 0x02, 0x00, 0x00, 0x00]);
    s.receive_packet(&[0x04, 0x00, 0x04, 0x00, 0x09, 0x00, 0x14, 0x05, 0x00, 0x00, 0x00]);
    s.receive_packet(&[0x04, 0x00, 0x04, 0x00, 0x09, 0x00, 0x0D, 0x03, 0x01, 0x00, 0x00]);
    assert_eq!(s.control_command_status_list.len(), 2);
    assert_eq!(s.control_command_status_list[0].identifier, ControlCommandIdentifiers::ListeningMode);
    assert_eq!(s.control_command_status_list[0].value, vec![0x03, 0x01]);
    assert_eq!(s.control_command_status_list[1].value, vec![0x05]);
}

#[test]
fn ear_detection_shifts_history() {
    let mut s = fresh();
    let r = s.receive_packet(&[0x04, 0x00, 0x04, 0x00, 0x06, 0x00, 0x00, 0x01]);
    assert!(s.old_ear_detection_status.is_empty());
    assert_eq!(s.ear_detection_status, vec![EarDetectionStatus::InEar, EarDetectionStatus::OutOfEar]);
    match r.event {
        Some(AACPEvent::EarDetection(p, c)) => {
            assert!(p.is_empty());
            assert_eq!(c, vec![EarDetectionStatus::InEar, EarDetectionStatus::OutOfEar]);
        },
        other => panic!("unexpected event {:?}", other),
    }
    s.receive_packet(&[0x04, 0x00, 0x04, 0x00, 0x06, 0x00, 0x02, 0x02]);
    assert_eq!(s.old_ear_detection_status, vec![EarDetectionStatus::InEar, EarDetectionStatus::OutOfEar]);
    assert_eq!(s.ear_detection_status, vec![EarDetectionStatus::InCase, EarDetectionStatus::InCase]);
    s.receive_packet(&[0x04, 0x00, 0x04, 0x00, 0x06, 0x00, 0x03, 0x09]);
    assert_eq!(s.ear_detection_status, vec![EarDetectionStatus::Disconnected, EarDetectionStatus::OutOfEar]);
    assert_eq!(s.old_ear_detection_status.len(), 2);
}

#[test]
fn audio_source_mac_order() {
    let payload = [0x0E, 0x00, 0xAA, 0xBB, 0xCC, 0xDD, 0xEE, 0xFF, 0x02];
    let a = parse_audio_source(&payload).unwrap();
    assert_eq!(a.mac, "FF:EE:DD:CC:BB:AA");
    assert_eq!(a.kind, AudioSourceType::Media);
    let b = parse_audio_source(&[0x0E, 0x00, 0x01, 0x02, 0x03, 0x04, 0x05, 0x06, 0x07]).unwrap();
    assert_eq!(b.kind, AudioSourceType::NoAudio);
    assert!(parse_audio_source(&[0x0E, 0x00, 0x01]).is_none());
}

#[test]
fn connected_devices_forward_order_and_history() {
    let mut s = fresh();
    let frame = [0x04, 0x00, 0x04, 0x00, 0x2E, 0x00, 0x01, 0x00, 0x00, 0x11, 0x22, 0x33, 0x44, 0x55, 0x6A, 0x07, 0x08];
    s.receive_packet(&frame);
    assert_eq!(s.connected_devices.len(), 1);
    assert_eq!(s.connected_devices[0].mac, "11:22:33:44:55:6A");
    assert_eq!(s.connected_devices[0].info1, 0x07);
    assert_eq!(s.connected_devices[0].info2, 0x08);
    assert!(s.old_connected_devices.is_empty());
    s.receive_packet(&[0x04, 0x00, 0x04, 0x00, 0x2E, 0x00, 0x00]);
    assert!(s.connected_devices.is_empty());
    assert_eq!(s.old_connected_devices.len(), 1);
    assert!(parse_connected_devices(&[0x2E, 0x00, 0x01, 0x00, 0x00, 0x11, 0x22, 0x33, 0x44, 0x55, 0x66, 0x07]).is_none());
}

#[test]
fn conversation_awareness_needs_ten_bytes() {
    let mut s = fresh();
    let r = s.receive_packet(&[0x04, 0x00, 0x04, 0x00, 0x4B, 0x00, 0x02, 0x00, 0x01, 0x05]);
    assert_eq!(s.conversational_awareness_status, 0x05);
    assert!(matches!(r.event, Some(AACPEvent::ConversationalAwareness(5))));
    let r = s.receive_packet(&[0x04, 0x00, 0x04, 0x00, 0x4B, 0x00, 0x02, 0x00, 0x01, 0x06, 0x00]);
    assert!(r.event.is_none());
    assert_eq!(s.conversational_awareness_status, 0x05);
}

#[test]
fn ownership_to_false_request() {
    let mut s = fresh();
    let mut frame = vec![0x04, 0x00, 0x04, 0x00, 0x11, 0x00];
    frame.extend_from_slice(b"xxaudioRoutingSetOwnershipToFalse");
    let r = s.receive_packet(&frame);
    assert!(matches!(r.event, Some(AACPEvent::OwnershipToFalseRequest)));
    let r = s.receive_packet(&[0x04, 0x00, 0x04, 0x00, 0x11, 0x00, 0x53, 0x65, 0x74]);
    assert!(r.event.is_none());
}

#[test]
fn frames_without_header_are_dropped() {
    let mut s = fresh();
    let r = s.receive_packet(&[0x05, 0x00, 0x04, 0x00, 0x09, 0x00, 0x06, 0x01, 0x00, 0x00, 0x00]);
    assert!(r.event.is_none());
    assert!(!s.owns);
    let r = s.receive_packet(&[0x04, 0x00, 0x04, 0x00]);
    assert!(r.event.is_none());
    let r = s.receive_packet(&[0x04, 0x00, 0x04, 0x00, 0x53, 0x00]);
    assert!(r.event.is_none() && !r.persist);
}

#[test]
fn proximity_keys_merge() {
    let mut s = with_peer("AA:BB:CC:DD:EE:FF");
    let mut frame = vec![0x04, 0x00, 0x04, 0x00, 0x31, 0x00, 0x01, 0x01, 0x00, 0x10, 0x00];
    frame.extend((0u8..16).collect::<Vec<u8>>());
    let r = s.receive_packet(&frame);
    assert!(r.persist);
    assert_eq!(s.devices.len(), 1);
    assert_eq!(s.devices[0].0, "AA:BB:CC:DD:EE:FF");
    let irk = "000102030405060708090a0b0c0d0e0f";
    match &s.devices[0].1.information {
        Some(DeviceInformation::AirPods(i)) => {
            assert_eq!(i.le_keys.irk, irk);
            assert_eq!(i.le_keys.enc_key, "");
        },
        None => panic!("no information"),
    }
    let mut frame = vec![0x04, 0x00, 0x04, 0x00, 0x31, 0x00, 0x01, 0x04, 0x00, 0x10, 0x00];
    frame.extend(vec![0xABu8; 16]);
    s.receive_packet(&frame);
    match &s.devices[0].1.information {
        Some(DeviceInformation::AirPods(i)) => {
            assert_eq!(i.le_keys.irk, irk);
            assert_eq!(i.le_keys.enc_key, "abababababababababababababababab");
        },
        None => panic!("no information"),
    }
}

#[test]
fn proximity_keys_short_payload() {
    assert!(parse_proximity_keys(&[0x31, 0x00, 0x01]).is_none());
    assert!(parse_proximity_keys(&[0x31, 0x00, 0x01, 0x01, 0x00, 0x04, 0x00, 0x01]).is_none());
    let keys = parse_proximity_keys(&[0x31, 0x00, 0x02, 0x01, 0x00, 0x01, 0x00, 0x7F, 0x04, 0x00, 0x00, 0x00]).unwrap();
    assert_eq!(keys, vec![(0x01, vec![0x7F]), (0x04, vec![])]);
}

#[test]
fn information_fills_existing_record_and_keeps_keys() {
    let mut s = with_peer("AA:BB:CC:DD:EE:FF");
    let mut frame = vec![0x04, 0x00, 0x04, 0x00, 0x31, 0x00, 0x01, 0x01, 0x00, 0x01, 0x00, 0x5A];
    s.receive_packet(&frame);
    frame = vec![0x04, 0x00, 0x04, 0x00, 0x1D, 0x00, 0x00, 0x00];
    frame.extend_from_slice(b"tok\0lead\0My Pods\0A2084\0Apple Inc.\0SER1\0\0v1");
    let r = s.receive_packet(&frame);
    assert!(r.persist);
    assert_eq!(s.devices[0].1.name, "My Pods");
    match &s.devices[0].1.information {
        Some(DeviceInformation::AirPods(i)) => {
            assert_eq!(i.name, "My Pods");
            assert_eq!(i.model_number, "A2084");
            assert_eq!(i.manufacturer, "Apple Inc.");
            assert_eq!(i.serial_number, "SER1");
            assert_eq!(i.version1, "v1");
            assert_eq!(i.version2, "");
            assert_eq!(i.le_keys.irk, "5a");
        },
        None => panic!("no information"),
    }
}

#[test]
fn information_skips_invalid_utf8() {
    let mut payload = vec![0x1D, 0x00, 0x00, 0x00];
    payload.extend_from_slice(b"t\0x\0");
    payload.extend_from_slice(&[0xFF, 0xFE, 0x00]);
    payload.extend_from_slice(b"Name\0Model");
    let info = parse_information(&payload).unwrap();
    assert_eq!(info.name, "Name");
    assert_eq!(info.model_number, "Model");
    assert!(parse_information(&[0x1D, 0x00, 0x00, 0x00, 0x41]).is_none());
}

#[test]
fn read_error_clears_state() {
    let mut s = fresh();
    s.set_connected();
    s.receive_packet(&[0x04, 0x00, 0x04, 0x00, 0x09, 0x00, 0x06, 0x01, 0x00, 0x00, 0x00]);
    s.receive_packet(&[0x04, 0x00, 0x04, 0x00, 0x2E, 0x00, 0x01, 0x00, 0x00, 0x11, 0x22, 0x33, 0x44, 0x55, 0x66, 0x07, 0x08]);
    s.receive_ended(true);
    assert!(!s.owns);
    assert!(s.connected_devices.is_empty());
    assert!(s.control_command_status_list.is_empty());
    assert!(!s.connected);
}

#[test]
fn peer_close_keeps_state() {
    let mut s = fresh();
    s.set_connected();
    s.receive_packet(&[0x04, 0x00, 0x04, 0x00, 0x09, 0x00, 0x06, 0x01, 0x00, 0x00, 0x00]);
    s.receive_ended(false);
    assert!(s.owns);
    assert!(!s.connected);
    assert_eq!(s.outbound(vec![1]), Err(AacpError::NotConnected));
}

#[test]
fn subscribe_then_update() {
    let mut s = fresh();
    assert_eq!(s.subscribe_to_control_command(ControlCommandIdentifiers::ListeningMode, 7), None);
    let r = s.receive_packet(&[0x04, 0x00, 0x04, 0x00, 0x09, 0x00, 0x0D, 0x02, 0x00, 0x00, 0x00]);
    assert_eq!(r.deliveries, vec![(7, vec![0x02])]);
    let r = s.receive_packet(&[0x04, 0x00, 0x04, 0x00, 0x09, 0x00, 0x0D, 0x03, 0x00, 0x00, 0x00]);
    assert_eq!(r.deliveries, vec![(7, vec![0x03])]);
    let r = s.receive_packet(&[0x04, 0x00, 0x04, 0x00, 0x09, 0x00, 0x14, 0x03, 0x00, 0x00, 0x00]);
    assert!(r.deliveries.is_empty());
}

#[test]
fn update_then_subscribe() {
    let mut s = fresh();
    s.receive_packet(&[0x04, 0x00, 0x04, 0x00, 0x09, 0x00, 0x0D, 0x02, 0x00, 0x00, 0x00]);
    assert_eq!(s.subscribe_to_control_command(ControlCommandIdentifiers::ListeningMode, 3), Some(vec![0x02]));
    let r = s.receive_packet(&[0x04, 0x00, 0x04, 0x00, 0x09, 0x00, 0x0D, 0x04, 0x00, 0x00, 0x00]);
    assert_eq!(r.deliveries, vec![(3, vec![0x04])]);
}

#[test]
fn control_command_round_trip() {
    let p = encode_control_command(ControlCommandIdentifiers::ListeningMode, &[0x02, 0x00, 0x00, 0x00, 0x09]);
    assert_eq!(p, vec![0x04, 0x00, 0x04, 0x00, 0x09, 0x00, 0x0D, 0x02, 0x00, 0x00, 0x00]);
    let (id, value) = parse_control_command(&p[4..]).unwrap();
    assert_eq!(ControlCommandIdentifiers::from_u8(id), Some(ControlCommandIdentifiers::ListeningMode));
    assert_eq!(value, vec![0x02, 0x00, 0x00, 0x00]);
    let mut s = fresh();
    s.receive_packet(&p);
    assert_eq!(s.control_command_status_list[0].value, vec![0x02]);
    let q = encode_control_command(ControlCommandIdentifiers::OwnsConnection, &[0x01]);
    assert_eq!(q, vec![0x04, 0x00, 0x04, 0x00, 0x09, 0x00, 0x06, 0x01, 0x00, 0x00, 0x00]);
}

#[test]
fn fixed_commands() {
    assert_eq!(encode_handshake(), vec![0x00, 0x00, 0x04, 0x00, 0x01, 0x00, 0x02, 0x00, 0, 0, 0, 0, 0, 0, 0, 0]);
    assert_eq!(encode_set_feature_flags(), vec![0x04, 0x00, 0x04, 0x00, 0x4D, 0x00, 0xFF, 0, 0, 0, 0, 0, 0, 0]);
    assert_eq!(encode_notification_request(), vec![0x04, 0x00, 0x04, 0x00, 0x0F, 0x00, 0xFF, 0xFF, 0xFF, 0xFF]);
    assert_eq!(encode_ssl_probe(), vec![0x04, 0x00, 0x04, 0x00, 0x29, 0x00, 0xFF, 0xFF, 0xFF, 0xFF, 0xFF, 0xFF, 0xFF, 0xFF]);
    assert_eq!(frame_data_packet(&[0x0F, 0x00]), vec![0x04, 0x00, 0x04, 0x00, 0x0F, 0x00]);
}

#[test]
fn rename_and_key_request_shapes() {
    assert_eq!(encode_rename("Pods"), vec![0x04, 0x00, 0x04, 0x00, 0x1E, 0x00, 0x04, 0x00, b'P', b'o', b'd', b's']);
    assert_eq!(
        encode_proximity_keys_request(&vec![ProximityKeyType::Irk, ProximityKeyType::EncKey]),
        vec![0x04, 0x00, 0x04, 0x00, 0x30, 0x00, 0x05, 0x00]
    );
    assert_eq!(encode_proximity_keys_request(&vec![]), vec![0x04, 0x00, 0x04, 0x00, 0x30, 0x00, 0x00, 0x00]);
}

#[test]
fn smart_routing_lengths_and_prefix() {
    let me = "11:22:33:44:55:66";
    let t = "AA:BB:CC:DD:EE:FF";
    let cases: Vec<(Vec<u8>, usize)> = vec![
        (encode_media_information_new_device(me, t).unwrap(), 112),
        (encode_hijack_request(t).unwrap(), 106),
        (encode_media_information(me, t, true).unwrap(), 138),
        (encode_smart_routing_show_ui(t).unwrap(), 134),
        (encode_hijack_reversed(t).unwrap(), 97),
        (encode_add_tipi_device(me, t).unwrap(), 86),
    ];
    for (p, n) in cases {
        assert_eq!(&p[..6], &[0x04, 0x00, 0x04, 0x00, 0x10, 0x00]);
        assert_eq!(&p[6..12], &[0xFF, 0xEE, 0xDD, 0xCC, 0xBB, 0xAA]);
        assert_eq!(p.len(), 6 + n);
    }
    let tipi = encode_add_tipi_device(me, t).unwrap();
    assert_eq!(&tipi[12..17], &[0x4E, 0x00, 0x01, 0xE5, 0x48]);
    assert_eq!(&tipi[17..25], b"idleTime");
    assert_eq!(tipi[12] as usize, 86 - 8);
    let h = encode_hijack_request(t).unwrap();
    assert_eq!(&h[12..17], &[0x62, 0x00, 0x01, 0xE5, 0x4A]);
    assert_eq!(&h[17..27], b"localscore");
    let yes = encode_media_information(me, t, true).unwrap();
    let no = encode_media_information(me, t, false).unwrap();
    assert!(yes.windows(3).any(|w| w == b"YES"));
    assert!(!no.windows(3).any(|w| w == b"YES"));
    assert_eq!(encode_hijack_request("AA:BB:CC:DD:EE"), Err(AacpError::InvalidAddress));
    assert_eq!(encode_hijack_reversed("AA-BB-CC-DD-EE-FF"), Err(AacpError::InvalidAddress));
}

#[test]
fn mac_text_round_trip() {
    let o = parse_mac("0a:1B:2c:3D:4e:5F").unwrap();
    assert_eq!(o, vec![0x0A, 0x1B, 0x2C, 0x3D, 0x4E, 0x5F]);
    assert_eq!(format_mac(&o), "0A:1B:2C:3D:4E:5F");
    assert!(parse_mac("0G:1B:2C:3D:4E:5F").is_none());
}

#[test]
fn identifiers_bytes_and_names() {
    assert_eq!(ControlCommandIdentifiers::from_u8(0x06), Some(ControlCommandIdentifiers::OwnsConnection));
    assert_eq!(ControlCommandIdentifiers::from_u8(0x02), None);
    assert_eq!(ControlCommandIdentifiers::SingleClickMode.to_u8(), 0x14);
    assert_eq!(ControlCommandIdentifiers::Ssl.name(), "SSL");
    assert_eq!(ProximityKeyType::from_u8(0x04), Some(ProximityKeyType::EncKey));
    assert_eq!(ProximityKeyType::from_u8(0x02), None);
    assert_eq!(AudioSourceType::from_u8(0x01), Some(AudioSourceType::Call));
    assert_eq!(AudioSourceType::from_u8(0x03), None);
}

#[test]
fn connection_setup_decisions() {
    let (p, a) = connect_step(ConnectPhase::Idle, ConnectEvent::Start);
    assert_eq!((p, a), (ConnectPhase::Connecting, ConnectAction::OpenSocket));
    let (p, a) = connect_step(p, ConnectEvent::Connected);
    assert_eq!((p, a), (ConnectPhase::WaitingForCid, ConnectAction::PollPeer));
    let (p, a) = connect_step(p, ConnectEvent::PeerPolled { cid: 0, elapsed_ms: 400 });
    assert_eq!((p, a), (ConnectPhase::WaitingForCid, ConnectAction::WaitThenPoll { ms: 200 }));
    let (p, a) = connect_step(p, ConnectEvent::PeerPolled { cid: 0x40, elapsed_ms: 600 });
    assert_eq!((p, a), (ConnectPhase::Ready, ConnectAction::StartSession { queue_capacity: 128 }));
    let r = connect_step(ConnectPhase::WaitingForCid, ConnectEvent::PeerError { os_code: Some(107), elapsed_ms: 0 });
    assert_eq!(r, (ConnectPhase::Closed, ConnectAction::GiveUp));
    let r = connect_step(ConnectPhase::WaitingForCid, ConnectEvent::PeerPolled { cid: 0, elapsed_ms: 10000 });
    assert_eq!(r, (ConnectPhase::Closed, ConnectAction::GiveUp));
    let r = connect_step(ConnectPhase::Connecting, ConnectEvent::ConnectTimedOut);
    assert_eq!(r, (ConnectPhase::Closed, ConnectAction::GiveUp));
}

#[test]
fn duplicate_device_records_rejected() {
    let d = || DeviceData { name: "x".to_string(), type_: DeviceType::AirPods, information: None };
    let v = vec![("A".to_string(), d()), ("A".to_string(), d())];
    assert!(AACPManagerState::new(v).is_none());
}
