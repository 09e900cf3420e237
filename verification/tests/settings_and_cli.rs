use helium_multi_gateway::cli::{list_url, listing, sign_url, GatewayLine};
use helium_multi_gateway::settings::{
    default_api_addr, default_keys_dir, default_log_level, default_queue, parse_region,
    GwmpServerSettings, LogLevel, LogSettings, RegionChoice,
};
use helium_multi_gateway::text::number_text;

fn level(text: &str) -> LogLevel {
    LogSettings { level: text.to_string(), timestamp: false }.log_level()
}

#[test]
fn defaults() {
    assert_eq!(default_api_addr(), "127.0.0.1:4468");
    assert_eq!(default_log_level(), "info");
    assert_eq!(default_queue(), 100);
    assert_eq!(default_keys_dir(), "/var/run/helium-multi-gateway/keys");
    let gwmp = GwmpServerSettings::default();
    assert_eq!((gwmp.addr.as_str(), gwmp.port), ("0.0.0.0", 1680));
    assert_eq!(gwmp.listen_addr(), "0.0.0.0:1680");
    let log = LogSettings::default();
    assert_eq!(log.level, "");
    assert!(!log.timestamp);
    assert_eq!(log.log_level(), LogLevel::Info);
}

#[test]
fn log_levels_in_any_case() {
    assert_eq!(level("trace"), LogLevel::Trace);
    assert_eq!(level("DEBUG"), LogLevel::Debug);
    assert_eq!(level("Info"), LogLevel::Info);
    assert_eq!(level("wArN"), LogLevel::Warn);
    assert_eq!(level("error"), LogLevel::Error);
    assert_eq!(level("errors"), LogLevel::Info);
    assert_eq!(level("verbose"), LogLevel::Info);
    assert_eq!(level("d\u{e9}bug"), LogLevel::Info);
}

#[test]
fn regions() {
    assert_eq!(parse_region("", None), RegionChoice::Default);
    assert_eq!(parse_region("", Some(3)), RegionChoice::Default);
    assert_eq!(parse_region("US915", Some(0)), RegionChoice::Region(0));
    assert_eq!(parse_region("nowhere", None), RegionChoice::Default);
}

#[test]
fn numbers() {
    assert_eq!(number_text(0), "0");
    assert_eq!(number_text(1680), "1680");
    assert_eq!(number_text(u64::MAX), "18446744073709551615");
}

#[test]
fn urls() {
    assert_eq!(list_url("127.0.0.1:4468"), "http://127.0.0.1:4468/gateways");
    assert_eq!(
        sign_url("127.0.0.1:4468", "AABBCCDDEEFF0011"),
        "http://127.0.0.1:4468/gateways/AABBCCDDEEFF0011/sign"
    );
}

#[test]
fn listing_of_gateways() {
    assert_eq!(listing(0, 0, &vec![]), "Gateways: 0/0 connected\n\n");
    let lines = vec![
        GatewayLine {
            mac: "AABBCCDDEEFF0011".to_string(),
            public_key: "1abc".to_string(),
            connected: true,
            connected_seconds: Some(3600),
            last_uplink_seconds_ago: Some(5),
        },
        GatewayLine {
            mac: "0102030405060708".to_string(),
            public_key: "1def".to_string(),
            connected: false,
            connected_seconds: None,
            last_uplink_seconds_ago: None,
        },
    ];
    assert_eq!(
        listing(1, 2, &lines),
        "Gateways: 1/2 connected\n\n  AABBCCDDEEFF0011 [connected]\n    public_key: 1abc\n    \
         connected_for: 3600s\n    last_uplink: 5s ago\n\n  0102030405060708 [disconnected]\n    \
         public_key: 1def\n\n"
    );
}
