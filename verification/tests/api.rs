use base64::{engine::general_purpose::STANDARD, Engine};
use helium_multi_gateway::api::{
    check_api_key, get_gateway, list_gateways, parse_mac, read_auth, sign_data, sign_response,
    write_auth, ApiKeys, SignRequest,
};
use helium_multi_gateway::gateway_table::GatewayTable;
use helium_multi_gateway::health::DispatcherHealth;
use helium_multi_gateway::keypair::{GatewayKeypair, KeypairError};
use helium_multi_gateway::keys_dir::KeysDir;
use helium_multi_gateway::mac::MacAddress;
use helium_multi_gateway::metrics::{
    last_event_gauge, missing_headers, set_dispatcher_health, Counter,
};

const SEC: u64 = 1_000_000_000;
const A: MacAddress = MacAddress { bytes: [0xAA, 0xBB, 0xCC, 0xDD, 0xEE, 0xFF, 0x00, 0x11] };
const B: MacAddress = MacAddress { bytes: [1, 2, 3, 4, 5, 6, 7, 8] };
const BAD_MAC: &str = "Invalid MAC address format. Expected 16 hex characters.";

fn keypair(seed: u8) -> GatewayKeypair {
    GatewayKeypair::generate(&[seed; 32]).unwrap()
}

fn table() -> GatewayTable {
    let mut table = GatewayTable::new(
        KeysDir::new("/keys".to_string()),
        "http://router:8080/".to_string(),
        100,
        "US915".to_string(),
        vec![],
    );
    table.on_connect(A, Some(keypair(1)), 0).unwrap();
    table.get_public_key(B, Some(keypair(2))).unwrap();
    table
}

fn request(data: &str) -> SignRequest {
    SignRequest { data: data.to_string() }
}

#[test]
fn no_key_admits_everyone() {
    assert!(check_api_key(&None, None).is_ok());
    assert!(check_api_key(&None, Some(b"anything")).is_ok());
}

#[test]
fn key_admits_only_itself() {
    let expected = Some("s\u{e9}same".to_string());
    assert!(check_api_key(&expected, Some("s\u{e9}same".as_bytes())).is_ok());
    let error = check_api_key(&expected, Some(b"sesame")).unwrap_err();
    assert_eq!((error.status, error.body.error.as_str()), (401, "Invalid API key"));
    let error = check_api_key(&expected, Some("s\u{e9}same2".as_bytes())).unwrap_err();
    assert_eq!(error.body.error, "Invalid API key");
    let error = check_api_key(&expected, None).unwrap_err();
    assert_eq!((error.status, error.body.error.as_str()), (401, "Missing X-API-Key header"));
}

#[test]
fn reading_and_signing_have_keys_of_their_own() {
    let keys = ApiKeys { read: Some("r".to_string()), write: Some("w".to_string()) };
    assert!(read_auth(&keys, Some(b"r")).is_ok());
    assert!(read_auth(&keys, Some(b"w")).is_err());
    assert!(write_auth(&keys, Some(b"w")).is_ok());
    assert!(write_auth(&keys, Some(b"r")).is_err());
    let keys = ApiKeys { read: None, write: Some("w".to_string()) };
    assert!(read_auth(&keys, None).is_ok());
    assert!(write_auth(&keys, None).is_err());
}

#[test]
fn mac_in_a_path() {
    assert_eq!(parse_mac("AABBCCDDEEFF0011").unwrap().bytes, A.bytes);
    assert_eq!(parse_mac("aabbccddeeff0011").unwrap().bytes, A.bytes);
    for text in ["", "AABB", "AABBCCDDEEFF00112", "GABBCCDDEEFF0011"] {
        let error = parse_mac(text).unwrap_err();
        assert_eq!((error.status, error.body.error.as_str()), (400, BAD_MAC));
    }
}

#[test]
fn status_of_a_gateway() {
    let table = table();
    let info = get_gateway(&table, "AABBCCDDEEFF0011", 61 * SEC).unwrap();
    assert_eq!(info.mac, "AABBCCDDEEFF0011");
    assert_eq!(info.public_key, keypair(1).address().unwrap());
    assert_eq!(info.connected_seconds, Some(61));
    let error = get_gateway(&table, "AABBCCDDEEFF00", 0).unwrap_err();
    assert_eq!((error.status, error.body.error.as_str()), (400, BAD_MAC));
    let error = get_gateway(&table, "ffffffffffffffff", 0).unwrap_err();
    assert_eq!(
        (error.status, error.body.error.as_str()),
        (404, "Gateway ffffffffffffffff not found")
    );
}

#[test]
fn list_counts_gateways() {
    let table = table();
    let mut health = DispatcherHealth::new(SEC);
    let response = list_gateways(&table, &health, 3 * SEC);
    assert_eq!((response.total, response.connected), (2, 1));
    assert_eq!(response.gateways.len(), 2);
    assert!(response.gateways.iter().any(|g| g.mac == "AABBCCDDEEFF0011" && g.connected));
    assert!(response.gateways.iter().any(|g| g.mac == "0102030405060708" && !g.connected));
    assert_eq!(response.dispatcher.last_event_seconds_ago, None);
    assert_eq!(response.dispatcher.uptime_seconds, 2);
    assert_eq!(response.dispatcher.events_processed, 0);
    health.record_event(4 * SEC);
    let response = list_gateways(&table, &health, 9 * SEC);
    assert_eq!(response.dispatcher.last_event_seconds_ago, Some(5));
    assert_eq!(response.dispatcher.uptime_seconds, 8);
    assert_eq!(response.dispatcher.events_processed, 1);
}

#[test]
fn signature_is_accepted_by_the_gateways_key() {
    let table = table();
    let response = sign_data(&table, "AABBCCDDEEFF0011", &request("aGVsbG8gd29ybGQ=")).unwrap();
    let signature = STANDARD.decode(&response.signature).unwrap();
    assert_eq!(signature.len(), 64);
    assert!(keypair(1).verify(b"hello world", &signature));
    assert!(!keypair(1).verify(b"aGVsbG8gd29ybGQ=", &signature));
    assert!(!keypair(2).verify(b"hello world", &signature));
}

#[test]
fn signing_is_refused() {
    let table = table();
    let refused = |mac: &str, data: &str| {
        let error = sign_data(&table, mac, &request(data)).unwrap_err();
        (error.status, error.body.error)
    };
    assert_eq!(refused("AABB", "!"), (400, BAD_MAC.to_string()));
    assert_eq!(refused("ffffffffffffffff", "!"), (400, "Invalid base64 data".to_string()));
    assert_eq!(refused("AABBCCDDEEFF0011", "aGVsbG8"), (400, "Invalid base64 data".to_string()));
    assert_eq!(
        refused("ffffffffffffffff", "aGVsbG8="),
        (404, "Gateway ffffffffffffffff not found".to_string())
    );
}

#[test]
fn answers_to_every_outcome_of_signing() {
    let response = sign_response("X", Ok(Some(b"hello world".to_vec()))).unwrap();
    assert_eq!(response.signature, "aGVsbG8gd29ybGQ=");
    let response = sign_response("X", Ok(Some(vec![]))).unwrap();
    assert_eq!(response.signature, "");
    let error = sign_response("X", Ok(None)).unwrap_err();
    assert_eq!((error.status, error.body.error.as_str()), (404, "Gateway X not found"));
    let error = sign_response("X", Err(KeypairError { text: "oops".to_string() })).unwrap_err();
    assert_eq!((error.status, error.body.error.as_str()), (500, "Signing failed: oops"));
}

#[test]
fn first_health_stays() {
    let mut slot = None;
    assert_eq!(last_event_gauge(&slot, SEC), None);
    set_dispatcher_health(&mut slot, DispatcherHealth::new(1));
    set_dispatcher_health(&mut slot, DispatcherHealth::new(2));
    assert_eq!(slot.unwrap().started, 1);
    assert_eq!(last_event_gauge(&slot, SEC), Some(0));
    let mut health = slot.unwrap();
    health.record_event(2 * SEC);
    assert_eq!(last_event_gauge(&Some(health), 7 * SEC + 1), Some(5));
    assert_eq!(last_event_gauge(&Some(health), SEC), Some(0));
}

#[test]
fn events_wrap_around() {
    let mut health = DispatcherHealth::new(0);
    health.events = u64::MAX;
    health.record_event(0);
    assert_eq!(health.total_events(), 0);
}

#[test]
fn counters_have_names() {
    assert_eq!(Counter::GatewayConnections.name(), "gateway_connections_total");
    assert_eq!(Counter::GatewayDisconnections.name(), "gateway_disconnections_total");
    assert_eq!(Counter::PacketsUplink.name(), "packets_uplink_total");
    assert_eq!(Counter::PacketsDownlink.name(), "packets_downlink_total");
    assert_eq!(Counter::GatewayConnections.help(), "Total gateway connections");
    assert_eq!(Counter::GatewayDisconnections.help(), "Total gateway disconnections");
    assert_eq!(Counter::PacketsUplink.help(), "Total uplink packets received");
    assert_eq!(Counter::PacketsDownlink.help(), "Total downlink packets sent");
}

#[test]
fn listed_gateways_are_found() {
    let table = table();
    for listed in table.list_gateways(SEC) {
        let found = get_gateway(&table, &listed.mac, SEC).unwrap();
        assert_eq!(found.public_key, listed.public_key);
        assert_eq!(found.connected, listed.connected);
    }
}

#[test]
fn unused_counters_are_introduced() {
    let listed = vec![
        "gateway_connections_total".to_string(),
        "dispatcher_last_event_seconds_ago".to_string(),
        "packets_uplink_total".to_string(),
    ];
    assert_eq!(
        missing_headers(&listed),
        "# HELP gateway_disconnections_total Total gateway disconnections\n\
         # TYPE gateway_disconnections_total counter\n\
         # HELP packets_downlink_total Total downlink packets sent\n\
         # TYPE packets_downlink_total counter\n"
    );
    assert_eq!(missing_headers(&vec![]).lines().count(), 8);
    let all = vec![
        Counter::GatewayConnections.name().to_string(),
        Counter::GatewayDisconnections.name().to_string(),
        Counter::PacketsUplink.name().to_string(),
        Counter::PacketsDownlink.name().to_string(),
    ];
    assert_eq!(missing_headers(&all), "");
}
