//! What the outside world is told of gateways: status for the REST API, and events as they happen.
use vstd::prelude::*;
use crate::gateway_entry::{EntryView, GatewayEntry};
use crate::health::NANOS_PER_SEC;
use crate::health::{elapsed_nanos, whole_seconds};
use crate::keys_dir::mac_to_key_name;
use crate::mac::hex_text;
use crate::packet::{PacketMetadata, PacketView};

verus! {

/// Gateway information for API responses.
#[derive(Debug)]
pub struct GatewayInfo {
    pub mac: String,
    pub public_key: String,
    pub region: String,
    pub connected: bool,
    pub connected_seconds: Option<u64>,
    pub last_uplink_seconds_ago: Option<u64>,
    pub uplink_count: u64,
    pub downlink_count: u64,
    /// GPS latitude from STAT packets: the bits of a double-precision number.
    pub latitude: Option<u64>,
    /// GPS longitude from STAT packets: the bits of a double-precision number.
    pub longitude: Option<u64>,
    /// GPS altitude in meters from STAT packets.
    pub altitude: Option<i64>,
}

/// What gateway information holds.
#[verifier::ext_equal]
pub struct InfoView {
    pub mac: Seq<char>,
    pub public_key: Seq<char>,
    pub region: Seq<char>,
    pub connected: bool,
    pub connected_seconds: Option<u64>,
    pub last_uplink_seconds_ago: Option<u64>,
    pub uplink_count: u64,
    pub downlink_count: u64,
    pub latitude: Option<u64>,
    pub longitude: Option<u64>,
    pub altitude: Option<i64>,
}

impl View for GatewayInfo {
    type V = InfoView;

    open spec fn view(&self) -> InfoView {
        InfoView {
            mac: self.mac@,
            public_key: self.public_key@,
            region: self.region@,
            connected: self.connected,
            connected_seconds: self.connected_seconds,
            last_uplink_seconds_ago: self.last_uplink_seconds_ago,
            uplink_count: self.uplink_count,
            downlink_count: self.downlink_count,
            latitude: self.latitude,
            longitude: self.longitude,
            altitude: self.altitude,
        }
    }
}

/// Whole seconds from a moment to `now`, if there was such a moment.
pub open spec fn seconds_since(moment: Option<u64>, now: u64) -> Option<u64> {
    match moment {
        Some(at) => Some(whole_seconds(elapsed_nanos(at, now))),
        None => None,
    }
}

/// The information on a gateway at `now`. There is one if its public key can be shown.
pub open spec fn info_of(entry: EntryView, region: Seq<char>, now: u64) -> InfoView {
    InfoView {
        mac: hex_text(entry.mac),
        public_key: entry.keypair.address->0,
        region,
        connected: entry.connected,
        connected_seconds: seconds_since(entry.connected_since, now),
        last_uplink_seconds_ago: seconds_since(entry.last_uplink, now),
        uplink_count: entry.uplink_count,
        downlink_count: entry.downlink_count,
        latitude: entry.latitude,
        longitude: entry.longitude,
        altitude: entry.altitude,
    }
}

/// Whole seconds in an optional number of nanoseconds.
fn seconds(nanos: Option<u64>) -> (seconds: Option<u64>)
    ensures
        seconds == (match nanos {
            Some(n) => Some(whole_seconds(n)),
            None => None,
        }),
{
    match nanos {
        Some(n) => Some(n / NANOS_PER_SEC),
        None => None,
    }
}

impl GatewayInfo {
    /// Collects the information on a gateway at `now`.
    pub fn from_entry(entry: &GatewayEntry, region: &str, now: u64) -> (info: GatewayInfo)
        requires
            entry@.keypair.is_shown(),
        ensures
            info@ == info_of(entry@, region@, now),
            info.mac@ == hex_text(entry@.mac),
            entry@.keypair.address == Some(info.public_key@),
            info.region@ == region@,
            info.connected == entry@.connected,
            info.connected_seconds is Some <==> entry@.connected_since is Some,
            info.last_uplink_seconds_ago is Some <==> entry@.last_uplink is Some,
            info.uplink_count == entry@.uplink_count,
            info.downlink_count == entry@.downlink_count,
            info.latitude == entry@.latitude,
            info.longitude == entry@.longitude,
            info.altitude == entry@.altitude,
    {
        let mac = entry.mac();
        let (latitude, longitude, altitude) = entry.location();
        GatewayInfo {
            mac: mac_to_key_name(&mac),
            public_key: entry.keypair().address().unwrap(),
            region: region.to_owned(),
            connected: entry.connected(),
            connected_seconds: seconds(entry.connection_duration(now)),
            last_uplink_seconds_ago: seconds(entry.time_since_last_uplink(now)),
            uplink_count: entry.uplink_count(),
            downlink_count: entry.downlink_count(),
            latitude,
            longitude,
            altitude,
        }
    }
}

/// An event in the life of a gateway, for those who follow it.
#[derive(Debug)]
pub enum GatewayEvent {
    Connect { mac: String, region: String },
    Disconnect { mac: String, region: String },
    Uplink { mac: String, region: String, metadata: PacketMetadata },
    Downlink { mac: String, region: String, metadata: PacketMetadata },
}

/// What an event holds.
pub enum EventView {
    Connect { mac: Seq<char>, region: Seq<char> },
    Disconnect { mac: Seq<char>, region: Seq<char> },
    Uplink { mac: Seq<char>, region: Seq<char>, metadata: PacketView },
    Downlink { mac: Seq<char>, region: Seq<char>, metadata: PacketView },
}

impl View for GatewayEvent {
    type V = EventView;

    open spec fn view(&self) -> EventView {
        match *self {
            GatewayEvent::Connect { mac, region } => EventView::Connect {
                mac: mac@,
                region: region@,
            },
            GatewayEvent::Disconnect { mac, region } => EventView::Disconnect {
                mac: mac@,
                region: region@,
            },
            GatewayEvent::Uplink { mac, region, metadata } => EventView::Uplink {
                mac: mac@,
                region: region@,
                metadata: metadata@,
            },
            GatewayEvent::Downlink { mac, region, metadata } => EventView::Downlink {
                mac: mac@,
                region: region@,
                metadata: metadata@,
            },
        }
    }
}

/// The status of a gateway tells the place that its last STAT packet with GPS data gave.
pub proof fn law_status_shows_the_reported_place(
    entry: EntryView,
    latitude: u64,
    longitude: u64,
    altitude: Option<i64>,
    region: Seq<char>,
    now: u64,
)
    ensures
        ({
            let info = info_of(entry.locate(latitude, longitude, altitude), region, now);
            &&& info.latitude == Some(latitude)
            &&& info.longitude == Some(longitude)
            &&& info.altitude == altitude
        }),
{
}

/// The status of a gateway tells how long it has been connected exactly while it is connected.
pub proof fn law_connected_seconds_only_while_connected(
    entry: EntryView,
    region: Seq<char>,
    now: u64,
)
    requires
        entry.wf(),
    ensures
        info_of(entry, region, now).connected <==> info_of(
            entry,
            region,
            now,
        ).connected_seconds is Some,
{
}

/// The status of a gateway is its own: MAC address, public key, connection, counts and place are
/// those of the gateway, and the region is the server's.
pub proof fn law_status_is_the_gateways(entry: EntryView, region: Seq<char>, now: u64)
    ensures
        ({
            let info = info_of(entry, region, now);
            &&& info.mac == hex_text(entry.mac)
            &&& entry.keypair.address matches Some(address) ==> info.public_key == address
            &&& info.region == region
            &&& info.connected == entry.connected
            &&& info.connected_seconds == seconds_since(entry.connected_since, now)
            &&& info.last_uplink_seconds_ago == seconds_since(entry.last_uplink, now)
            &&& info.uplink_count == entry.uplink_count
            &&& info.downlink_count == entry.downlink_count
            &&& info.latitude == entry.latitude
            &&& info.longitude == entry.longitude
            &&& info.altitude == entry.altitude
        }),
{
}

/// The seconds since a moment are the most whole seconds that have passed from it to now; none have
/// from a moment that is not yet past. There are no seconds without a moment.
pub proof fn law_seconds_since_a_moment(moment: Option<u64>, now: u64)
    ensures
        seconds_since(moment, now) is Some <==> moment is Some,
        moment matches Some(at) ==> {
            let seconds = seconds_since(moment, now)->0;
            &&& at <= now ==> at + seconds * 1_000_000_000 <= now < at + (seconds + 1)
                * 1_000_000_000
            &&& at > now ==> seconds == 0
        },
{
}

/// What is said of gateway information is said of its fields.
pub proof fn law_information_is_its_fields(info: GatewayInfo)
    ensures
        info@.mac == info.mac@,
        info@.public_key == info.public_key@,
        info@.region == info.region@,
        info@.connected == info.connected,
        info@.connected_seconds == info.connected_seconds,
        info@.last_uplink_seconds_ago == info.last_uplink_seconds_ago,
        info@.uplink_count == info.uplink_count,
        info@.downlink_count == info.downlink_count,
        info@.latitude == info.latitude,
        info@.longitude == info.longitude,
        info@.altitude == info.altitude,
{
}

/// What is said of an event is said of its kind and its fields.
pub proof fn law_events_are_their_fields(mac: String, region: String, metadata: PacketMetadata)
    ensures
        (GatewayEvent::Connect { mac, region })@ == (EventView::Connect {
            mac: mac@,
            region: region@,
        }),
        (GatewayEvent::Disconnect { mac, region })@ == (EventView::Disconnect {
            mac: mac@,
            region: region@,
        }),
        (GatewayEvent::Uplink { mac, region, metadata })@ == (EventView::Uplink {
            mac: mac@,
            region: region@,
            metadata: metadata@,
        }),
        (GatewayEvent::Downlink { mac, region, metadata })@ == (EventView::Downlink {
            mac: mac@,
            region: region@,
            metadata: metadata@,
        }),
{
}

} // verus!
