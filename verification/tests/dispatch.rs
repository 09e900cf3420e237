use helium_multi_gateway::dispatcher::{
    handle_downlink, handle_event, handle_packet, stat_place, DownlinkOutcome, ParsedPacket,
    RxPacket, TxPacket, UdpEvent, DEFAULT_TX_POWER,
};
use helium_multi_gateway::gateway_info::GatewayEvent;
use helium_multi_gateway::gateway_table::GatewayTable;
use helium_multi_gateway::keypair::GatewayKeypair;
use helium_multi_gateway::keys_dir::KeysDir;
use helium_multi_gateway::mac::MacAddress;
use helium_multi_gateway::metrics::Counter;

const A: MacAddress = MacAddress { bytes: [0xAA, 0xBB, 0xCC, 0xDD, 0xEE, 0xFF, 0x00, 0x11] };

fn keypair() -> GatewayKeypair {
    GatewayKeypair::generate(&[1; 32]).unwrap()
}

fn table() -> GatewayTable {
    GatewayTable::new(
        KeysDir::new("/keys".to_string()),
        "http://router:8080/".to_string(),
        100,
        "EU868".to_string(),
        vec![],
    )
}

fn rx(signal_rssi: Option<i32>) -> RxPacket {
    RxPacket {
        signal_rssi,
        channel_rssi: -120,
        snr: 5.0f32.to_bits(),
        frequency: 868.1f64.to_bits(),
        datarate: "SF7BW125".to_string(),
        data: vec![0x40, 4, 3, 2, 1, 0, 1, 0],
    }
}

#[test]
fn default_power() {
    assert_eq!(DEFAULT_TX_POWER, 27);
}

#[test]
fn new_client_connects() {
    let mut table = table();
    let event = UdpEvent::NewClient(A);
    let (counter, label) = event.counter().unwrap();
    assert_eq!(counter, Counter::GatewayConnections);
    assert_eq!(label, "AABBCCDDEEFF0011");
    assert_eq!(event.gateway().unwrap().bytes, A.bytes);
    assert!(handle_event(&mut table, event, None, 0, None).is_err());
    let dispatch =
        handle_event(&mut table, UdpEvent::NewClient(A), Some(keypair()), 0, None).unwrap();
    assert!(dispatch.order.start.is_some());
    assert!(matches!(dispatch.event, Some(GatewayEvent::Connect { .. })));
    assert!(dispatch.pending.is_none());
    assert!(table.get_gateway(&A, 0).unwrap().connected);
}

#[test]
fn updated_client_reconnects_uncounted() {
    let mut table = table();
    handle_event(&mut table, UdpEvent::NewClient(A), Some(keypair()), 0, None).unwrap();
    let event = UdpEvent::UpdateClient(A);
    assert!(event.counter().is_none());
    assert!(event.gateway().is_some());
    let dispatch = handle_event(&mut table, event, None, 0, None).unwrap();
    assert!(dispatch.order.abort);
    assert!(dispatch.order.start.is_some());
}

#[test]
fn lost_client_disconnects() {
    let mut table = table();
    handle_event(&mut table, UdpEvent::NewClient(A), Some(keypair()), 0, None).unwrap();
    let event = UdpEvent::ClientDisconnected(A);
    assert_eq!(event.counter().unwrap().0, Counter::GatewayDisconnections);
    assert!(event.gateway().is_none());
    let dispatch = handle_event(&mut table, event, None, 0, None).unwrap();
    assert!(dispatch.order.abort);
    assert!(dispatch.order.start.is_none());
    assert!(matches!(dispatch.event, Some(GatewayEvent::Disconnect { .. })));
    assert!(!table.get_gateway(&A, 0).unwrap().connected);
}

#[test]
fn other_events_change_nothing() {
    let mut table = table();
    for event in [
        UdpEvent::StatReceived(None, A),
        UdpEvent::StatReceived(Some((1, 2, Some(3))), A),
        UdpEvent::UnableToParseUdpFrame,
        UdpEvent::NoClientWithMac(A),
    ] {
        assert!(event.counter().is_none());
        assert!(event.gateway().is_none());
        let dispatch = handle_event(&mut table, event, Some(keypair()), 0, None).unwrap();
        assert!(!dispatch.order.abort);
        assert!(dispatch.order.start.is_none());
        assert!(dispatch.event.is_none());
        assert!(dispatch.pending.is_none());
    }
    assert!(!table.knows(&A));
}

#[test]
fn received_packet_is_to_be_parsed() {
    let mut table = table();
    let event = UdpEvent::PacketReceived(rx(Some(-90)), A);
    assert!(event.counter().is_none());
    assert!(handle_event(&mut table, event, None, 0, Some(7)).is_err());
    let dispatch = handle_event(
        &mut table,
        UdpEvent::PacketReceived(rx(Some(-90)), A),
        Some(keypair()),
        0,
        Some(7),
    )
    .unwrap();
    let pending = dispatch.pending.unwrap();
    assert_eq!(pending.mac.bytes, A.bytes);
    assert_eq!(pending.public_key, keypair().public_key());
    assert_eq!(pending.metadata.rssi, -90);
    assert_eq!(pending.metadata.timestamp, 7);
    assert_eq!(pending.metadata.dev_addr.as_deref(), Some("01020304"));
    assert!(dispatch.order.start.is_none());
    assert!(dispatch.event.is_none());
    let dispatch =
        handle_event(&mut table, UdpEvent::PacketReceived(rx(None), A), None, 0, None).unwrap();
    assert_eq!(dispatch.pending.unwrap().metadata.rssi, -120);
    assert_eq!(table.get_gateway(&A, 0).unwrap().uplink_count, 0);
}

#[test]
fn uplink_packet_is_recorded_and_sent_on() {
    let mut table = table();
    handle_event(&mut table, UdpEvent::NewClient(A), Some(keypair()), 0, None).unwrap();
    let pending = handle_event(&mut table, UdpEvent::PacketReceived(rx(None), A), None, 0, None)
        .unwrap()
        .pending
        .unwrap();
    let plan = handle_packet(&mut table, pending, ParsedPacket::Uplink, None, 0, false).unwrap();
    assert_eq!(plan.counter, (Counter::PacketsUplink, "AABBCCDDEEFF0011".to_string()));
    assert!(matches!(plan.event, GatewayEvent::Uplink { ref region, .. } if region == "EU868"));
    let uplink = plan.uplink.unwrap();
    assert!(uplink.deliver);
    assert!(uplink.order.start.is_none());
    assert_eq!(table.get_gateway(&A, 0).unwrap().uplink_count, 1);
    assert_eq!(table.get_recent_packets(&A).unwrap().len(), 1);
}

#[test]
fn other_packets_are_ignored() {
    for parsed in [ParsedPacket::NotUplink, ParsedPacket::Invalid] {
        let mut table = table();
        let pending =
            handle_event(&mut table, UdpEvent::PacketReceived(rx(None), A), Some(keypair()), 0, None)
                .unwrap()
                .pending
                .unwrap();
        assert!(handle_packet(&mut table, pending, parsed, None, 0, false).is_none());
        let info = table.get_gateway(&A, 0).unwrap();
        assert_eq!(info.uplink_count, 0);
        assert_eq!(info.last_uplink_seconds_ago, None);
    }
}

#[test]
fn sent_downlink_is_recorded() {
    let mut table = table();
    handle_event(&mut table, UdpEvent::NewClient(A), Some(keypair()), 0, None).unwrap();
    let packet = TxPacket {
        frequency: 869.525f64.to_bits(),
        datarate: "SF12BW125".to_string(),
        data: vec![0x60, 1, 2],
    };
    let (counter, label, event) =
        handle_downlink(&mut table, A, DownlinkOutcome::Sent(packet), Some(9)).unwrap();
    assert_eq!(counter, Counter::PacketsDownlink);
    assert_eq!(label, "AABBCCDDEEFF0011");
    assert!(matches!(event, GatewayEvent::Downlink { ref metadata, .. }
        if metadata.rssi == 0 && metadata.snr == 0 && metadata.payload_size == 3));
    let info = table.get_gateway(&A, 0).unwrap();
    assert_eq!((info.uplink_count, info.downlink_count), (0, 1));
    assert_eq!(table.get_recent_packets(&A).unwrap()[0].timestamp, 9);
}

#[test]
fn failed_downlinks_are_dropped() {
    let mut table = table();
    handle_event(&mut table, UdpEvent::NewClient(A), Some(keypair()), 0, None).unwrap();
    assert!(handle_downlink(&mut table, A, DownlinkOutcome::NotConverted, None).is_none());
    assert!(handle_downlink(&mut table, A, DownlinkOutcome::NotSent, None).is_none());
    assert_eq!(table.get_gateway(&A, 0).unwrap().downlink_count, 0);
    assert!(table.get_recent_packets(&A).unwrap().is_empty());
}

#[test]
fn stat_packet_sets_the_location() {
    let other = MacAddress { bytes: [9; 8] };
    let mut table = table();
    handle_event(&mut table, UdpEvent::NewClient(A), Some(keypair()), 0, None).unwrap();
    handle_event(&mut table, UdpEvent::NewClient(other), Some(keypair()), 0, None).unwrap();
    let place = stat_place(Some(48.5f64.to_bits()), Some(2.25f64.to_bits()), Some(150));
    let event = UdpEvent::StatReceived(place, A);
    assert!(event.counter().is_none());
    assert!(event.gateway().is_none());
    let dispatch = handle_event(&mut table, event, None, 0, None).unwrap();
    assert!(!dispatch.order.abort);
    assert!(dispatch.order.start.is_none());
    assert!(dispatch.event.is_none());
    assert!(dispatch.pending.is_none());
    let info = table.get_gateway(&A, 0).unwrap();
    assert_eq!(info.latitude.map(f64::from_bits), Some(48.5));
    assert_eq!(info.longitude.map(f64::from_bits), Some(2.25));
    assert_eq!(info.altitude, Some(150));
    assert!(info.connected);
    assert_eq!(table.get_gateway(&other, 0).unwrap().latitude, None);
    handle_event(&mut table, UdpEvent::StatReceived(None, A), None, 0, None).unwrap();
    assert_eq!(table.get_gateway(&A, 0).unwrap().altitude, Some(150));
    handle_event(&mut table, UdpEvent::StatReceived(Some((7, 8, None)), A), None, 0, None).unwrap();
    let info = table.get_gateway(&A, 0).unwrap();
    assert_eq!((info.latitude, info.longitude, info.altitude), (Some(7), Some(8), None));
}

#[test]
fn place_needs_latitude_and_longitude() {
    assert_eq!(stat_place(Some(1), Some(2), None), Some((1, 2, None)));
    assert_eq!(stat_place(Some(1), None, Some(3)), None);
    assert_eq!(stat_place(None, Some(2), Some(3)), None);
    assert_eq!(stat_place(None, None, Some(3)), None);
}
