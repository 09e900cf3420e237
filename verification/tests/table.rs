use helium_multi_gateway::gateway_entry::{GatewayEntry, MAX_RECENT_PACKETS};
use helium_multi_gateway::gateway_info::GatewayEvent;
use helium_multi_gateway::gateway_table::{AddGatewayResult, GatewayTable};
use helium_multi_gateway::keypair::GatewayKeypair;
use helium_multi_gateway::keys_dir::KeysDir;
use helium_multi_gateway::mac::MacAddress;
use helium_multi_gateway::packet::PacketMetadata;

const SEC: u64 = 1_000_000_000;
const A: MacAddress = MacAddress { bytes: [0xAA, 0xBB, 0xCC, 0xDD, 0xEE, 0xFF, 0x00, 0x11] };
const B: MacAddress = MacAddress { bytes: [1, 2, 3, 4, 5, 6, 7, 8] };

fn keypair(seed: u8) -> GatewayKeypair {
    GatewayKeypair::generate(&[seed; 32]).unwrap()
}

fn empty_table() -> GatewayTable {
    GatewayTable::new(
        KeysDir::new("/keys".to_string()),
        "http://router:8080/".to_string(),
        100,
        "US915".to_string(),
        vec![],
    )
}

fn packet(n: u64) -> PacketMetadata {
    PacketMetadata::from_rxpk_data(-100, 0, 0, "SF7BW125".to_string(), &[0x40], Some(n as u128))
}

#[test]
fn table_holds_the_loaded_gateways() {
    let table = GatewayTable::new(
        KeysDir::new("/keys".to_string()),
        "http://router:8080/".to_string(),
        100,
        "US915".to_string(),
        vec![
            ("AABBCCDDEEFF0011".to_string(), keypair(1)),
            ("spare".to_string(), keypair(2)),
            ("aabbccddeeff0011".to_string(), keypair(3)),
        ],
    );
    assert!(table.knows(&A));
    assert!(!table.knows(&B));
    assert_eq!(table.keys_dir().path(), "/keys");
    let infos = table.list_gateways(0);
    assert_eq!(infos.len(), 1);
    assert_eq!(infos[0].mac, "AABBCCDDEEFF0011");
    assert_eq!(infos[0].public_key, keypair(3).address().unwrap());
    assert_eq!(infos[0].region, "US915");
    assert!(!infos[0].connected);
}

#[test]
fn connect_starts_a_task() {
    let mut table = empty_table();
    assert!(table.on_connect(A, None, 0).is_err());
    assert!(!table.knows(&A));
    let (order, event) = table.on_connect(A, Some(keypair(1)), 5 * SEC).unwrap();
    assert!(!order.abort);
    let task = order.start.unwrap();
    assert_eq!(task.mac.bytes, A.bytes);
    assert_eq!(task.keypair.to_vec(), keypair(1).to_vec());
    assert_eq!(task.router_uri, "http://router:8080/");
    assert_eq!(task.queue_size, 100);
    assert!(matches!(event, GatewayEvent::Connect { ref mac, ref region }
        if mac == "AABBCCDDEEFF0011" && region == "US915"));
    let info = table.get_gateway(&A, 8 * SEC + SEC / 2).unwrap();
    assert!(info.connected);
    assert_eq!(info.connected_seconds, Some(3));
    assert_eq!(info.last_uplink_seconds_ago, None);
}

#[test]
fn reconnect_restarts_the_task() {
    let mut table = empty_table();
    table.on_connect(A, Some(keypair(1)), 0).unwrap();
    let (order, _) = table.on_connect(A, Some(keypair(2)), 4 * SEC).unwrap();
    assert!(order.abort);
    assert_eq!(order.start.unwrap().keypair.to_vec(), keypair(1).to_vec());
    assert_eq!(table.get_gateway(&A, 5 * SEC).unwrap().connected_seconds, Some(1));
}

#[test]
fn disconnect_stops_the_task() {
    let mut table = empty_table();
    let (abort, event) = table.on_disconnect(A);
    assert!(!abort);
    assert!(matches!(event, GatewayEvent::Disconnect { ref mac, .. } if mac == "AABBCCDDEEFF0011"));
    assert!(!table.knows(&A));
    table.on_connect(A, Some(keypair(1)), 0).unwrap();
    assert!(table.on_disconnect(A).0);
    assert!(!table.on_disconnect(A).0);
    let info = table.get_gateway(&A, SEC).unwrap();
    assert!(!info.connected);
    assert_eq!(info.connected_seconds, None);
}

#[test]
fn gateways_do_not_affect_each_other() {
    let mut table = empty_table();
    table.on_connect(A, Some(keypair(1)), 0).unwrap();
    table.on_connect(B, Some(keypair(2)), 0).unwrap();
    table.record_uplink_metadata(A, packet(1));
    table.on_disconnect(A);
    let info = table.get_gateway(&B, SEC).unwrap();
    assert!(info.connected);
    assert_eq!(info.uplink_count, 0);
    assert_eq!(info.mac, "0102030405060708");
    assert_eq!(table.list_gateways(SEC).len(), 2);
}

#[test]
fn uplink_of_a_new_gateway_connects_it() {
    let mut table = empty_table();
    assert!(table.send_uplink(A, None, 0, false).is_err());
    let plan = table.send_uplink(A, Some(keypair(1)), 2 * SEC, false).unwrap();
    assert!(plan.deliver);
    assert!(!plan.order.abort);
    assert!(plan.order.start.is_some());
    let info = table.get_gateway(&A, 5 * SEC).unwrap();
    assert!(info.connected);
    assert_eq!(info.last_uplink_seconds_ago, Some(3));
}

#[test]
fn uplink_of_a_connected_gateway_is_delivered() {
    let mut table = empty_table();
    table.on_connect(A, Some(keypair(1)), 0).unwrap();
    let plan = table.send_uplink(A, None, SEC, false).unwrap();
    assert!(plan.deliver);
    assert!(!plan.order.abort);
    assert!(plan.order.start.is_none());
    assert_eq!(table.get_gateway(&A, SEC).unwrap().connected_seconds, Some(1));
}

#[test]
fn uplink_to_a_dead_task_restarts_it() {
    let mut table = empty_table();
    table.on_connect(A, Some(keypair(1)), 0).unwrap();
    let plan = table.send_uplink(A, None, 7 * SEC, true).unwrap();
    assert!(!plan.deliver);
    assert!(!plan.order.abort);
    assert!(plan.order.start.is_some());
    let info = table.get_gateway(&A, 9 * SEC).unwrap();
    assert!(info.connected);
    assert_eq!(info.connected_seconds, Some(2));
    assert_eq!(info.last_uplink_seconds_ago, Some(2));
}

#[test]
fn uplink_of_a_disconnected_gateway_connects_it() {
    let mut table = empty_table();
    table.get_public_key(A, Some(keypair(1))).unwrap();
    let plan = table.send_uplink(A, None, SEC, false).unwrap();
    assert!(!plan.deliver);
    assert!(plan.order.start.is_some());
    assert!(table.get_gateway(&A, SEC).unwrap().connected);
}

#[test]
fn closed_channel_restarts_the_task() {
    let mut table = empty_table();
    assert!(table.uplink_failed(A, 0).is_none());
    table.on_connect(A, Some(keypair(1)), 0).unwrap();
    let order = table.uplink_failed(A, 3 * SEC).unwrap();
    assert!(!order.abort);
    assert!(order.start.is_some());
    assert_eq!(table.get_gateway(&A, 4 * SEC).unwrap().connected_seconds, Some(1));
}

#[test]
fn public_key_enters_a_gateway() {
    let mut table = empty_table();
    assert!(table.get_public_key(A, None).is_err());
    assert_eq!(table.get_public_key(A, Some(keypair(1))).unwrap(), keypair(1).public_key());
    assert_eq!(table.get_public_key(A, Some(keypair(2))).unwrap(), keypair(1).public_key());
    assert!(!table.get_gateway(&A, 0).unwrap().connected);
}

#[test]
fn uplinks_and_downlinks_are_counted_apart() {
    let mut table = empty_table();
    table.get_public_key(A, Some(keypair(1))).unwrap();
    let event = table.record_uplink_metadata(A, packet(1));
    assert!(matches!(event, GatewayEvent::Uplink { ref mac, ref region, ref metadata }
        if mac == "AABBCCDDEEFF0011" && region == "US915" && metadata.timestamp == 1));
    table.record_uplink_metadata(A, packet(2));
    let event = table.record_downlink_event(A, packet(3));
    assert!(matches!(event, GatewayEvent::Downlink { ref metadata, .. } if metadata.timestamp == 3));
    let info = table.get_gateway(&A, 0).unwrap();
    assert_eq!((info.uplink_count, info.downlink_count), (2, 1));
    let times: Vec<u64> =
        table.get_recent_packets(&A).unwrap().iter().map(|p| p.timestamp).collect();
    assert_eq!(times, vec![1, 2, 3]);
}

#[test]
fn packets_of_unknown_gateways_are_not_kept() {
    let mut table = empty_table();
    table.record_uplink_metadata(A, packet(1));
    table.record_downlink_event(A, packet(1));
    table.update_location(A, 0, 0, None);
    assert!(!table.knows(&A));
    assert!(table.get_recent_packets(&A).is_none());
    assert!(table.get_gateway(&A, 0).is_none());
}

#[test]
fn recent_packets_are_the_last_ones() {
    let mut table = empty_table();
    table.get_public_key(A, Some(keypair(1))).unwrap();
    for n in 0..(MAX_RECENT_PACKETS as u64 + 5) {
        table.record_uplink_metadata(A, packet(n));
    }
    let times: Vec<u64> =
        table.get_recent_packets(&A).unwrap().iter().map(|p| p.timestamp).collect();
    assert_eq!(MAX_RECENT_PACKETS, 200);
    assert_eq!(times, (5..205).collect::<Vec<u64>>());
    assert_eq!(table.get_gateway(&A, 0).unwrap().uplink_count, 205);
}

#[test]
fn location_is_taken_over() {
    let mut table = empty_table();
    table.get_public_key(A, Some(keypair(1))).unwrap();
    assert_eq!(table.get_gateway(&A, 0).unwrap().latitude, None);
    table.update_location(A, 52.5f64.to_bits(), (-13.25f64).to_bits(), Some(34));
    let info = table.get_gateway(&A, 0).unwrap();
    assert_eq!(info.latitude.map(f64::from_bits), Some(52.5));
    assert_eq!(info.longitude.map(f64::from_bits), Some(-13.25));
    assert_eq!(info.altitude, Some(34));
    table.update_location(A, 0, 0, None);
    assert_eq!(table.get_gateway(&A, 0).unwrap().altitude, None);
}

#[test]
fn table_signs_with_the_gateways_key() {
    let mut table = empty_table();
    assert!(table.sign(&A, b"data").unwrap().is_none());
    table.get_public_key(A, Some(keypair(1))).unwrap();
    let signature = table.sign(&A, b"data").unwrap().unwrap();
    assert!(keypair(1).verify(b"data", &signature));
    assert!(!keypair(2).verify(b"data", &signature));
}

#[test]
fn add_gateway_transaction() {
    let mut table = empty_table();
    assert!(table.create_add_gateway_txn(&A, vec![1], vec![2]).is_none());
    table.get_public_key(A, Some(keypair(1))).unwrap();
    let txn = table.create_add_gateway_txn(&A, vec![1], vec![2]).unwrap();
    assert_eq!(txn.gateway, keypair(1).public_key().unwrap());
    assert_eq!((txn.owner.clone(), txn.payer.clone()), (vec![1], vec![2]));
    assert!(txn.gateway_signature.is_empty());
    let signed = table.sign_add_gateway_txn(&A, txn, b"unsigned").unwrap().unwrap();
    assert_eq!((signed.owner.clone(), signed.payer.clone()), (vec![1], vec![2]));
    assert!(keypair(1).verify(b"unsigned", &signed.gateway_signature));
    let signature = signed.gateway_signature.clone();
    let result = AddGatewayResult::new(signed, b"unsigned".to_vec(), b"encoded".to_vec());
    assert_eq!(result.signature, signature);
    assert_eq!(result.unsigned_msg, b"unsigned");
    assert_eq!(result.encoded, b"encoded");
    let txn = table.create_add_gateway_txn(&A, vec![], vec![]).unwrap();
    assert!(table.sign_add_gateway_txn(&B, txn, b"").unwrap().is_none());
}

#[test]
fn entry_notices_a_dead_task() {
    let mut entry = GatewayEntry::new(A, keypair(1));
    assert!(!entry.is_connected(true));
    assert!(!entry.connect(SEC));
    assert!(entry.is_connected(false));
    assert_eq!(entry.connection_duration(3 * SEC), Some(2 * SEC));
    assert_eq!(entry.connection_duration(0), Some(0));
    assert!(!entry.is_connected(true));
    assert!(!entry.connected());
    assert_eq!(entry.connection_duration(3 * SEC), None);
    assert_eq!(entry.time_since_last_uplink(SEC), None);
    assert!(!entry.send_uplink(SEC, false));
    assert_eq!(entry.time_since_last_uplink(2 * SEC), Some(SEC));
    assert_eq!(entry.mac.bytes, A.bytes);
    assert_eq!(entry.public_key(), keypair(1).public_key());
}

#[test]
fn gateway_keeps_its_keypair() {
    let mut table = empty_table();
    table.on_connect(A, Some(keypair(1)), 0).unwrap();
    table.on_connect(A, Some(keypair(2)), 0).unwrap();
    table.send_uplink(A, Some(keypair(2)), 0, true).unwrap();
    table.uplink_failed(A, 0);
    table.record_uplink_metadata(A, packet(1));
    table.record_downlink_event(A, packet(2));
    table.update_location(A, 1, 2, None);
    table.get_public_key(A, Some(keypair(2))).unwrap();
    table.get_public_key(B, Some(keypair(3))).unwrap();
    table.on_disconnect(A);
    assert_eq!(table.get_gateway(&A, 0).unwrap().public_key, keypair(1).address().unwrap());
    assert_eq!(table.get_gateway(&B, 0).unwrap().public_key, keypair(3).address().unwrap());
}

#[test]
fn gateway_whose_public_key_cannot_be_shown() {
    let unshown = (1u8..40)
        .map(|n| {
            let mut key = vec![0u8; 33];
            key[32] = n;
            GatewayKeypair::from_bytes(key).unwrap()
        })
        .find(|keypair| !keypair.is_shown())
        .unwrap();
    let mut table = GatewayTable::new(
        KeysDir::new("/keys".to_string()),
        "http://router:8080/".to_string(),
        100,
        "US915".to_string(),
        vec![("AABBCCDDEEFF0011".to_string(), unshown.clone())],
    );
    assert!(table.knows(&A));
    assert!(!table.shows(&A));
    assert!(table.shows(&B));
    assert!(!table.shows_all());
    assert_eq!(table.get_public_key(A, None).unwrap(), None);
    assert!(table.on_connect(A, None, 0).is_ok());
    let signature = table.sign(&A, b"data").unwrap().unwrap();
    assert!(unshown.verify(b"data", &signature));
    let mut table = empty_table();
    assert!(table.shows_all());
    table.get_public_key(A, Some(keypair(1))).unwrap();
    assert!(table.shows(&A));
    assert!(table.shows_all());
}
