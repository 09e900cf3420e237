//! The dispatcher: what follows from the events of the UDP server and from downlinks.
use vstd::prelude::*;
use crate::frame::frame_fields;
use crate::gateway_info::{EventView, GatewayEvent};
use crate::gateway_table::{
    GatewayTable, NotProvisioned, OrderView, TableView, TaskOrder, UplinkPlan,
};
use crate::gateway_table::keypair_view;
use crate::keypair::bytes_view;
use crate::keypair::{GatewayKeypair, KeypairView};
use crate::keys_dir::mac_to_key_name;
use crate::mac::MacAddress;
use crate::mac::hex_text;
use crate::metrics::Counter;
use crate::packet::{PacketMetadata, PacketView};
use crate::packet::{packet_of, unix_millis};

verus! {

/// Default transmit power of downlinks, in dBm.
pub const DEFAULT_TX_POWER: u32 = 27;

/// A packet that a gateway received.
pub struct RxPacket {
    /// Strength of the signal, if the gateway tells it.
    pub signal_rssi: Option<i32>,
    /// Strength of all that is on the channel.
    pub channel_rssi: i32,
    /// Signal-to-noise ratio: the bits of a single-precision number.
    pub snr: u32,
    /// Frequency: the bits of a double-precision number.
    pub frequency: u64,
    pub datarate: String,
    pub data: Vec<u8>,
}

/// The metadata of a packet that a gateway received. The strength of the signal counts; where it is
/// not told, that of the channel.
pub open spec fn rx_metadata(packet: RxPacket, since_epoch: Option<u128>) -> PacketView {
    packet_of(
        match packet.signal_rssi {
            Some(rssi) => rssi,
            None => packet.channel_rssi,
        },
        packet.snr,
        packet.frequency,
        packet.datarate@,
        packet.data@,
        since_epoch,
    )
}

/// A packet that a gateway is to send.
pub struct TxPacket {
    /// Frequency: the bits of a double-precision number.
    pub frequency: u64,
    pub datarate: String,
    pub data: Vec<u8>,
}

/// The metadata of a packet that a gateway sends: there is no signal strength and no
/// signal-to-noise ratio.
pub open spec fn tx_metadata(packet: TxPacket, since_epoch: Option<u128>) -> PacketView {
    packet_of(0, 0, packet.frequency, packet.datarate@, packet.data@, since_epoch)
}

/// The place that the GPS data of a STAT packet gives: there is one if the packet tells latitude
/// and longitude; the altitude may be missing.
pub fn stat_place(
    latitude: Option<u64>,
    longitude: Option<u64>,
    altitude: Option<i64>,
) -> (place: Option<(u64, u64, Option<i64>)>)
    ensures
        place == (match (latitude, longitude) {
            (Some(north), Some(east)) => Some((north, east, altitude)),
            _ => None,
        }),
{
    match (latitude, longitude) {
        (Some(north), Some(east)) => Some((north, east, altitude)),
        _ => None,
    }
}

/// An event of the UDP server.
pub enum UdpEvent {
    NewClient(MacAddress),
    PacketReceived(RxPacket, MacAddress),
    ClientDisconnected(MacAddress),
    UpdateClient(MacAddress),
    /// A STAT packet, with the place that its GPS data gives, if it gives one: latitude and
    /// longitude (the bits of double-precision numbers) and altitude in meters.
    StatReceived(Option<(u64, u64, Option<i64>)>, MacAddress),
    UnableToParseUdpFrame,
    NoClientWithMac(MacAddress),
}

impl UdpEvent {
    /// The counter that the event raises, and the label that it raises it for.
    pub fn counter(&self) -> (counter: Option<(Counter, String)>)
        ensures
            match *self {
                UdpEvent::NewClient(mac) => counter matches Some((counter, label)) && counter
                    == Counter::GatewayConnections && label@ == hex_text(mac@),
                UdpEvent::ClientDisconnected(mac) => counter matches Some((counter, label))
                    && counter == Counter::GatewayDisconnections && label@ == hex_text(mac@),
                _ => counter is None,
            },
    {
        match self {
            UdpEvent::NewClient(mac) => Some((Counter::GatewayConnections, mac_to_key_name(mac))),
            UdpEvent::ClientDisconnected(mac) => Some(
                (Counter::GatewayDisconnections, mac_to_key_name(mac)),
            ),
            _ => None,
        }
    }

    /// The gateway that has to be in the table for the event, or needs a keypair to be entered.
    pub fn gateway(&self) -> (mac: Option<MacAddress>)
        ensures
            mac == (match *self {
                UdpEvent::NewClient(mac) => Some(mac),
                UdpEvent::UpdateClient(mac) => Some(mac),
                UdpEvent::PacketReceived(_, mac) => Some(mac),
                _ => None,
            }),
    {
        match self {
            UdpEvent::NewClient(mac) => Some(*mac),
            UdpEvent::UpdateClient(mac) => Some(*mac),
            UdpEvent::PacketReceived(_, mac) => Some(*mac),
            _ => None,
        }
    }
}

/// A packet that a gateway received and that is still to be parsed.
pub struct PendingPacket {
    pub mac: MacAddress,
    /// Public key of the gateway, in binary form, if it can be written.
    pub public_key: Option<Vec<u8>>,
    pub metadata: PacketMetadata,
}

/// What follows from an event of the UDP server.
pub struct Dispatch {
    /// What is to be done with the gateway's router task.
    pub order: TaskOrder,
    /// What those who follow the gateways are told.
    pub event: Option<GatewayEvent>,
    /// The packet that is to be parsed.
    pub pending: Option<PendingPacket>,
}

/// The order that changes nothing.
pub open spec fn no_order() -> OrderView {
    OrderView { abort: false, start: None }
}

/// Handles an event of the UDP server. `provisioned` is the keypair of the event's gateway if that
/// is not in the table. Fails only where such a keypair is missing.
pub fn handle_event(
    table: &mut GatewayTable,
    event: UdpEvent,
    provisioned: Option<GatewayKeypair>,
    now: u64,
    since_epoch: Option<u128>,
) -> (result: Result<Dispatch, NotProvisioned>)
    requires
        old(table)@.wf(),
    ensures
        final(table)@.wf(),
        match event {
            UdpEvent::NewClient(mac) | UdpEvent::UpdateClient(mac) => match old(
                table,
            )@.found_or_fresh(mac@, keypair_view(provisioned)) {
                Some(entry) => {
                    &&& result matches Ok(dispatch)
                    &&& final(table)@ == old(table)@.with(mac@, entry.connect(now))
                    &&& dispatch.order@ == old(table)@.connect_order(entry)
                    &&& dispatch.event matches Some(told)
                    &&& told@ == (EventView::Connect {
                        mac: hex_text(mac@),
                        region: old(table)@.region,
                    })
                    &&& dispatch.pending is None
                },
                None => result is Err && final(table)@ == old(table)@,
            },
            UdpEvent::PacketReceived(packet, mac) => match old(table)@.found_or_fresh(
                mac@,
                keypair_view(provisioned),
            ) {
                Some(entry) => {
                    &&& result matches Ok(dispatch)
                    &&& final(table)@ == old(table)@.with(mac@, entry)
                    &&& dispatch.order@ == no_order()
                    &&& dispatch.event is None
                    &&& dispatch.pending matches Some(pending)
                    &&& pending.mac == mac
                    &&& bytes_view(pending.public_key) == entry.keypair.public_key
                    &&& pending.metadata@ == rx_metadata(packet, since_epoch)
                    &&& packet.signal_rssi matches Some(rssi) ==> pending.metadata.rssi == rssi
                    &&& packet.signal_rssi is None ==> pending.metadata.rssi == packet.channel_rssi
                    &&& pending.metadata.snr == packet.snr
                    &&& pending.metadata.frequency == packet.frequency
                    &&& pending.metadata.spreading_factor@ == packet.datarate@
                    &&& pending.metadata.payload_size == packet.data@.len()
                    &&& pending.metadata.frame_type == frame_fields(packet.data@).frame_type
                },
                None => result is Err && final(table)@ == old(table)@,
            },
            UdpEvent::ClientDisconnected(mac) => {
                &&& result matches Ok(dispatch)
                &&& final(table)@ == old(table)@.changed(
                    mac@,
                    old(table)@.entry(mac@).disconnect(),
                )
                &&& dispatch.order@ == (OrderView {
                    abort: old(table)@.knows(mac@) && old(table)@.entry(mac@).connected,
                    start: None,
                })
                &&& dispatch.event matches Some(told)
                &&& told@ == (EventView::Disconnect {
                    mac: hex_text(mac@),
                    region: old(table)@.region,
                })
                &&& dispatch.pending is None
            },
            UdpEvent::StatReceived(Some((latitude, longitude, altitude)), mac) => {
                &&& result matches Ok(dispatch)
                &&& final(table)@ == old(table)@.changed(
                    mac@,
                    old(table)@.entry(mac@).locate(latitude, longitude, altitude),
                )
                &&& dispatch.order@ == no_order()
                &&& dispatch.event is None
                &&& dispatch.pending is None
            },
            _ => {
                &&& result matches Ok(dispatch)
                &&& final(table)@ == old(table)@
                &&& dispatch.order@ == no_order()
                &&& dispatch.event is None
                &&& dispatch.pending is None
            },
        },
{
    match event {
        UdpEvent::NewClient(mac) | UdpEvent::UpdateClient(mac) => match table.on_connect(
            mac,
            provisioned,
            now,
        ) {
            Ok((order, event)) => Ok(Dispatch { order, event: Some(event), pending: None }),
            Err(error) => Err(error),
        },
        UdpEvent::PacketReceived(packet, mac) => {
            let rssi: i32 = match packet.signal_rssi {
                Some(rssi) => rssi,
                None => packet.channel_rssi,
            };
            let metadata = PacketMetadata::from_rxpk_data(
                rssi,
                packet.snr,
                packet.frequency,
                packet.datarate,
                packet.data.as_slice(),
                since_epoch,
            );
            match table.get_public_key(mac, provisioned) {
                Ok(public_key) => Ok(
                    Dispatch {
                        order: TaskOrder { abort: false, start: None },
                        event: None,
                        pending: Some(PendingPacket { mac, public_key, metadata }),
                    },
                ),
                Err(error) => Err(error),
            }
        },
        UdpEvent::ClientDisconnected(mac) => {
            let (abort, event) = table.on_disconnect(mac);
            Ok(
                Dispatch {
                    order: TaskOrder { abort, start: None },
                    event: Some(event),
                    pending: None,
                },
            )
        },
        UdpEvent::StatReceived(Some((latitude, longitude, altitude)), mac) => {
            table.update_location(mac, latitude, longitude, altitude);
            Ok(
                Dispatch {
                    order: TaskOrder { abort: false, start: None },
                    event: None,
                    pending: None,
                },
            )
        },
        UdpEvent::StatReceived(None, _)
        | UdpEvent::UnableToParseUdpFrame
        | UdpEvent::NoClientWithMac(_) => Ok(
            Dispatch {
                order: TaskOrder { abort: false, start: None },
                event: None,
                pending: None,
            },
        ),
    }
}

/// What came of parsing a packet.
#[derive(Clone, Copy, Debug, PartialEq, Eq, Structural)]
pub enum ParsedPacket {
    /// It is an uplink packet.
    Uplink,
    /// It is another packet.
    NotUplink,
    /// It is no packet.
    Invalid,
}

/// What follows from an uplink packet.
pub struct PacketPlan {
    /// The counter that it raises, and the label that it raises it for.
    pub counter: (Counter, String),
    /// What those who follow the gateways are told.
    pub event: GatewayEvent,
    /// What is to be done with the router task and the packet.
    pub uplink: Result<UplinkPlan, NotProvisioned>,
}

/// Handles a packet that was parsed: an uplink packet is counted, recorded and sent on; others are
/// ignored (`None`). `provisioned` is the keypair of the packet's gateway if that is not in the
/// table; a packet that has neither cannot be sent on.
pub fn handle_packet(
    table: &mut GatewayTable,
    pending: PendingPacket,
    parsed: ParsedPacket,
    provisioned: Option<GatewayKeypair>,
    now: u64,
    task_finished: bool,
) -> (told: Option<PacketPlan>)
    requires
        old(table)@.wf(),
    ensures
        final(table)@.wf(),
        parsed != ParsedPacket::Uplink ==> told is None && final(table)@ == old(table)@,
        parsed == ParsedPacket::Uplink ==> {
            let mac = pending.mac@;
            let recorded = old(table)@.changed(
                mac,
                old(table)@.entry(mac).record_uplink(pending.metadata@),
            );
            &&& told matches Some(plan)
            &&& plan.counter.0 == Counter::PacketsUplink
            &&& plan.counter.1@ == hex_text(mac)
            &&& plan.event@ == (EventView::Uplink {
                mac: hex_text(mac),
                region: old(table)@.region,
                metadata: pending.metadata@,
            })
            &&& match recorded.uplink(mac, keypair_view(provisioned), now, task_finished) {
                Some((entry, order, deliver)) => {
                    &&& plan.uplink matches Ok(uplink)
                    &&& final(table)@ == recorded.with(mac, entry)
                    &&& uplink.order@ == order
                    &&& uplink.deliver == deliver
                },
                None => plan.uplink is Err && final(table)@ == recorded,
            }
        },
{
    match parsed {
        ParsedPacket::Uplink => {
            let label = mac_to_key_name(&pending.mac);
            let event = table.record_uplink_metadata(pending.mac, pending.metadata);
            let uplink = table.send_uplink(pending.mac, provisioned, now, task_finished);
            Some(PacketPlan { counter: (Counter::PacketsUplink, label), event, uplink })
        },
        ParsedPacket::NotUplink | ParsedPacket::Invalid => None,
    }
}

/// What came of a downlink.
pub enum DownlinkOutcome {
    /// It could not be made a packet to send.
    NotConverted,
    /// The gateway could not be made to send it.
    NotSent,
    /// The gateway sends it.
    Sent(TxPacket),
}

/// Handles a downlink: one that is sent is counted and recorded; others are dropped (`None`).
/// `since_epoch` is when it was made a packet to send.
pub fn handle_downlink(
    table: &mut GatewayTable,
    mac: MacAddress,
    outcome: DownlinkOutcome,
    since_epoch: Option<u128>,
) -> (told: Option<(Counter, String, GatewayEvent)>)
    requires
        old(table)@.wf(),
    ensures
        final(table)@.wf(),
        match outcome {
            DownlinkOutcome::Sent(packet) => {
                let metadata = tx_metadata(packet, since_epoch);
                &&& told matches Some((counter, label, event))
                &&& counter == Counter::PacketsDownlink
                &&& label@ == hex_text(mac@)
                &&& event@ == (EventView::Downlink {
                    mac: hex_text(mac@),
                    region: old(table)@.region,
                    metadata,
                })
                &&& metadata.rssi == 0
                &&& metadata.snr == 0
                &&& metadata.frequency == packet.frequency
                &&& metadata.spreading_factor == packet.datarate@
                &&& metadata.payload_size == packet.data@.len()
                &&& final(table)@ == old(table)@.changed(
                    mac@,
                    old(table)@.entry(mac@).record_downlink().store_packet(metadata),
                )
            },
            _ => told is None && final(table)@ == old(table)@,
        },
{
    match outcome {
        DownlinkOutcome::Sent(packet) => {
            let metadata = PacketMetadata::from_rxpk_data(
                0,
                0,
                packet.frequency,
                packet.datarate,
                packet.data.as_slice(),
                since_epoch,
            );
            let event = table.record_downlink_event(mac, metadata);
            Some((Counter::PacketsDownlink, mac_to_key_name(&mac), event))
        },
        DownlinkOutcome::NotConverted | DownlinkOutcome::NotSent => None,
    }
}

/// Once a received packet has been taken in, its gateway is in the table: the packet can be sent on
/// without another keypair.
pub proof fn law_received_packet_can_be_sent_on(
    table: TableView,
    mac: Seq<u8>,
    provisioned: Option<KeypairView>,
    metadata: PacketView,
    now: u64,
    task_finished: bool,
)
    requires
        table.found_or_fresh(mac, provisioned) is Some,
    ensures
        ({
            let taken_in = table.with(mac, table.found_or_fresh(mac, provisioned)->0);
            let recorded = taken_in.changed(mac, taken_in.entry(mac).record_uplink(metadata));
            recorded.uplink(mac, None, now, task_finished) is Some
        }),
{
}

/// The metadata of a received packet is what the gateway measured: the strength of the signal, or
/// that of the channel where the gateway tells no other, the signal-to-noise ratio, the frequency
/// and the data rate, with the length and the header fields of the data and the time.
pub proof fn law_received_metadata_is_what_was_measured(
    packet: RxPacket,
    since_epoch: Option<u128>,
)
    requires
        packet.data@.len() <= usize::MAX,
    ensures
        ({
            let metadata = rx_metadata(packet, since_epoch);
            &&& packet.signal_rssi matches Some(rssi) ==> metadata.rssi == rssi
            &&& packet.signal_rssi is None ==> metadata.rssi == packet.channel_rssi
            &&& metadata.snr == packet.snr
            &&& metadata.frequency == packet.frequency
            &&& metadata.spreading_factor == packet.datarate@
            &&& metadata.payload_size == packet.data@.len()
            &&& metadata.timestamp == unix_millis(since_epoch)
            &&& metadata.frame_type == frame_fields(packet.data@).frame_type
            &&& metadata.dev_addr == frame_fields(packet.data@).dev_addr
            &&& metadata.fcnt == frame_fields(packet.data@).fcnt
            &&& metadata.fport == frame_fields(packet.data@).fport
        }),
{
}

/// The metadata of a downlink is what the gateway is to send, with no strength and no
/// signal-to-noise ratio.
pub proof fn law_sent_metadata_is_what_is_sent(packet: TxPacket, since_epoch: Option<u128>)
    requires
        packet.data@.len() <= usize::MAX,
    ensures
        ({
            let metadata = tx_metadata(packet, since_epoch);
            &&& metadata.rssi == 0
            &&& metadata.snr == 0
            &&& metadata.frequency == packet.frequency
            &&& metadata.spreading_factor == packet.datarate@
            &&& metadata.payload_size == packet.data@.len()
            &&& metadata.timestamp == unix_millis(since_epoch)
            &&& metadata.frame_type == frame_fields(packet.data@).frame_type
            &&& metadata.dev_addr == frame_fields(packet.data@).dev_addr
            &&& metadata.fcnt == frame_fields(packet.data@).fcnt
            &&& metadata.fport == frame_fields(packet.data@).fport
        }),
{
}

/// The order that changes nothing aborts no task and starts none, and is the only such order.
pub proof fn law_only_the_empty_order_changes_nothing(order: OrderView)
    ensures
        order == no_order() <==> !order.abort && order.start is None,
{
}

} // verus!
