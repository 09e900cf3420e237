//! State of a single gateway: its keypair, its connection and its recent packets.
use vstd::prelude::*;
use std::collections::VecDeque;
use crate::health::elapsed;
use crate::health::elapsed_nanos;
use crate::keypair::bytes_view;
use crate::keypair::{GatewayKeypair, KeypairView};
use crate::mac::MacAddress;
use crate::packet::{PacketMetadata, PacketView};

verus! {

/// How many recent packets are kept of each gateway.
pub const MAX_RECENT_PACKETS: usize = 200;

/// Per-gateway state.
///
/// Times are readings of one monotonic clock, in nanoseconds. The router task of a connected
/// gateway and the channel to it belong to the runtime; the entry knows whether they exist.
pub struct GatewayEntry {
    /// Gateway MAC address.
    pub mac: MacAddress,
    /// Gateway keypair.
    keypair: GatewayKeypair,
    /// Whether currently connected via UDP.
    connected: bool,
    /// When the gateway connected (if connected).
    connected_since: Option<u64>,
    /// When the last uplink came.
    last_uplink: Option<u64>,
    /// Whether there is a channel to the router task.
    uplink_tx: bool,
    /// Whether there is a router task.
    task_handle: bool,
    /// Recent packets, the oldest first.
    recent_packets: VecDeque<PacketMetadata>,
    /// Total uplink packets received.
    uplink_count: u64,
    /// Total downlink packets sent.
    downlink_count: u64,
    /// GPS latitude from STAT packets: the bits of a double-precision number.
    latitude: Option<u64>,
    /// GPS longitude from STAT packets: the bits of a double-precision number.
    longitude: Option<u64>,
    /// GPS altitude in meters from STAT packets.
    altitude: Option<i64>,
}

/// What the state of a gateway holds.
#[verifier::ext_equal]
pub struct EntryView {
    pub mac: Seq<u8>,
    pub keypair: KeypairView,
    pub connected: bool,
    pub connected_since: Option<u64>,
    pub last_uplink: Option<u64>,
    pub uplink_tx: bool,
    pub task_handle: bool,
    pub recent_packets: Seq<PacketView>,
    pub uplink_count: u64,
    pub downlink_count: u64,
    pub latitude: Option<u64>,
    pub longitude: Option<u64>,
    pub altitude: Option<i64>,
}

/// The views of a sequence of packets.
pub open spec fn packet_views(packets: Seq<PacketMetadata>) -> Seq<PacketView> {
    packets.map_values(|p: PacketMetadata| p@)
}

/// The recent packets after one more: the oldest leaves when there is no room.
pub open spec fn push_recent(recent: Seq<PacketView>, packet: PacketView) -> Seq<PacketView> {
    if recent.len() >= MAX_RECENT_PACKETS {
        recent.drop_first().push(packet)
    } else {
        recent.push(packet)
    }
}

/// The count after one more; counts wrap around.
pub open spec fn counted(count: u64) -> u64 {
    ((count + 1) % 0x1_0000_0000_0000_0000) as u64
}

impl EntryView {
    /// A gateway that has never connected.
    pub open spec fn fresh(mac: Seq<u8>, keypair: KeypairView) -> EntryView {
        EntryView {
            mac,
            keypair,
            connected: false,
            connected_since: None,
            last_uplink: None,
            uplink_tx: false,
            task_handle: false,
            recent_packets: Seq::empty(),
            uplink_count: 0,
            downlink_count: 0,
            latitude: None,
            longitude: None,
            altitude: None,
        }
    }

    /// A gateway is connected exactly while it has a connection time, a router task and a channel
    /// to that task; it keeps no more packets than there is room for.
    pub open spec fn wf(self) -> bool {
        &&& self.mac.len() == 8
        &&& self.connected == self.connected_since is Some
        &&& self.connected == self.uplink_tx
        &&& self.connected == self.task_handle
        &&& self.recent_packets.len() <= MAX_RECENT_PACKETS
    }

    /// The gateway connected at `now`, with a new router task.
    pub open spec fn connect(self, now: u64) -> EntryView {
        EntryView {
            connected: true,
            connected_since: Some(now),
            uplink_tx: true,
            task_handle: true,
            ..self
        }
    }

    /// The gateway without connection, router task and channel.
    pub open spec fn disconnect(self) -> EntryView {
        EntryView {
            connected: false,
            connected_since: None,
            uplink_tx: false,
            task_handle: false,
            ..self
        }
    }

    /// The gateway after a look at its router task: a connection whose task has finished is over.
    pub open spec fn check_task(self, finished: bool) -> EntryView {
        if self.connected && self.task_handle && finished {
            self.disconnect()
        } else {
            self
        }
    }

    /// The gateway after an uplink came at `now`.
    pub open spec fn note_uplink(self, now: u64) -> EntryView {
        EntryView { last_uplink: Some(now), ..self }
    }

    /// The gateway with one more recent packet.
    pub open spec fn store_packet(self, packet: PacketView) -> EntryView {
        EntryView { recent_packets: push_recent(self.recent_packets, packet), ..self }
    }

    /// The gateway with one more uplink.
    pub open spec fn record_uplink(self, packet: PacketView) -> EntryView {
        EntryView { uplink_count: counted(self.uplink_count), ..self.store_packet(packet) }
    }

    /// The gateway with one more downlink.
    pub open spec fn record_downlink(self) -> EntryView {
        EntryView { downlink_count: counted(self.downlink_count), ..self }
    }

    /// The gateway at the place that a STAT packet gave.
    pub open spec fn locate(self, latitude: u64, longitude: u64, altitude: Option<i64>) -> EntryView {
        EntryView {
            latitude: Some(latitude),
            longitude: Some(longitude),
            altitude,
            ..self
        }
    }
}

impl View for GatewayEntry {
    type V = EntryView;

    closed spec fn view(&self) -> EntryView {
        EntryView {
            mac: self.mac@,
            keypair: self.keypair@,
            connected: self.connected,
            connected_since: self.connected_since,
            last_uplink: self.last_uplink,
            uplink_tx: self.uplink_tx,
            task_handle: self.task_handle,
            recent_packets: packet_views(self.recent_packets@),
            uplink_count: self.uplink_count,
            downlink_count: self.downlink_count,
            latitude: self.latitude,
            longitude: self.longitude,
            altitude: self.altitude,
        }
    }
}

impl GatewayEntry {
    /// A disconnected gateway.
    pub fn new(mac: MacAddress, keypair: GatewayKeypair) -> (entry: GatewayEntry)
        ensures
            entry@ == EntryView::fresh(mac@, keypair@),
            entry@.wf(),
    {
        let entry = GatewayEntry {
            mac,
            keypair,
            connected: false,
            connected_since: None,
            last_uplink: None,
            uplink_tx: false,
            task_handle: false,
            recent_packets: VecDeque::new(),
            uplink_count: 0,
            downlink_count: 0,
            latitude: None,
            longitude: None,
            altitude: None,
        };
        assert(entry@.recent_packets =~= Seq::<PacketView>::empty());
        entry
    }

    /// The gateway's public key, in binary form, if it can be written.
    pub fn public_key(&self) -> (public_key: Option<Vec<u8>>)
        ensures
            bytes_view(public_key) == self@.keypair.public_key,
    {
        self.keypair.public_key()
    }

    /// The gateway's keypair.
    pub fn keypair(&self) -> (keypair: &GatewayKeypair)
        ensures
            keypair@ == self@.keypair,
    {
        &self.keypair
    }

    /// The gateway's MAC address.
    pub fn mac(&self) -> (mac: MacAddress)
        ensures
            mac@ == self@.mac,
    {
        self.mac
    }

    /// Total uplink packets received.
    pub fn uplink_count(&self) -> (count: u64)
        ensures
            count == self@.uplink_count,
    {
        self.uplink_count
    }

    /// Total downlink packets sent.
    pub fn downlink_count(&self) -> (count: u64)
        ensures
            count == self@.downlink_count,
    {
        self.downlink_count
    }

    /// Where the gateway is: latitude, longitude and altitude.
    pub fn location(&self) -> (place: (Option<u64>, Option<u64>, Option<i64>))
        ensures
            place == (self@.latitude, self@.longitude, self@.altitude),
    {
        (self.latitude, self.longitude, self.altitude)
    }

    /// Whether the gateway is marked as connected.
    pub fn connected(&self) -> (connected: bool)
        ensures
            connected == self@.connected,
    {
        self.connected
    }

    /// Checks if the gateway is connected. A connection whose router task has died
    /// (`task_finished`) is marked as over.
    pub fn is_connected(&mut self, task_finished: bool) -> (connected: bool)
        ensures
            final(self)@ == old(self)@.check_task(task_finished),
            connected == final(self)@.connected,
    {
        if self.connected {
            if self.task_handle && task_finished {
                self.lose_task();
                return false;
            }
        }
        self.connected
    }

    /// Marks the gateway as disconnected because its router task is gone.
    pub fn lose_task(&mut self)
        ensures
            final(self)@ == old(self)@.disconnect(),
    {
        self.connected = false;
        self.connected_since = None;
        self.uplink_tx = false;
        self.task_handle = false;
    }

    /// How long the gateway has been connected, in nanoseconds.
    pub fn connection_duration(&self, now: u64) -> (nanos: Option<u64>)
        ensures
            nanos == (match self@.connected_since {
                Some(since) => Some(elapsed_nanos(since, now)),
                None => None,
            }),
    {
        match self.connected_since {
            Some(since) => Some(elapsed(since, now)),
            None => None,
        }
    }

    /// How long ago the last uplink came, in nanoseconds.
    pub fn time_since_last_uplink(&self, now: u64) -> (nanos: Option<u64>)
        ensures
            nanos == (match self@.last_uplink {
                Some(at) => Some(elapsed_nanos(at, now)),
                None => None,
            }),
    {
        match self.last_uplink {
            Some(at) => Some(elapsed(at, now)),
            None => None,
        }
    }

    /// Notes an uplink packet and tells whether it can go to the router task. `false` means that
    /// the task is dead and needs a restart.
    pub fn send_uplink(&mut self, now: u64, task_finished: bool) -> (deliver: bool)
        ensures
            final(self)@ == old(self)@.note_uplink(now).check_task(task_finished),
            deliver == final(self)@.connected,
    {
        self.last_uplink = Some(now);
        self.is_connected(task_finished)
    }

    /// Marks the router task and its channel as existing.
    fn start_task(&mut self)
        ensures
            final(self)@ == (EntryView { uplink_tx: true, task_handle: true, ..old(self)@ }),
    {
        self.uplink_tx = true;
        self.task_handle = true;
    }

    /// Closes the channel and gives up the router task. Tells whether there is a task to abort.
    fn stop_task(&mut self) -> (abort: bool)
        ensures
            final(self)@ == (EntryView { uplink_tx: false, task_handle: false, ..old(self)@ }),
            abort == old(self)@.task_handle,
    {
        self.uplink_tx = false;
        let abort = self.task_handle;
        self.task_handle = false;
        abort
    }

    /// Marks the gateway as connected, with a new router task. If it was connected already, the
    /// task is restarted: the result tells whether there is an old one to abort.
    pub fn connect(&mut self, now: u64) -> (abort: bool)
        ensures
            final(self)@ == old(self)@.connect(now),
            abort == (old(self)@.connected && old(self)@.task_handle),
    {
        let mut abort = false;
        if self.connected {
            abort = self.stop_task();
        }
        self.connected = true;
        self.connected_since = Some(now);
        self.start_task();
        abort
    }

    /// Marks the gateway as disconnected and stops its router task. Tells whether there is one to
    /// abort.
    pub fn disconnect(&mut self) -> (abort: bool)
        ensures
            final(self)@ == (if old(self)@.connected {
                old(self)@.disconnect()
            } else {
                old(self)@
            }),
            abort == (old(self)@.connected && old(self)@.task_handle),
    {
        if self.connected {
            self.connected = false;
            self.connected_since = None;
            self.stop_task()
        } else {
            false
        }
    }

    /// Keeps a packet among the recent ones.
    pub fn store_packet(&mut self, metadata: PacketMetadata)
        ensures
            final(self)@ == old(self)@.store_packet(metadata@),
    {
        let ghost before = self.recent_packets@;
        if self.recent_packets.len() >= MAX_RECENT_PACKETS {
            let _oldest = self.recent_packets.pop_front();
        }
        self.recent_packets.push_back(metadata);
        assert(packet_views(self.recent_packets@) =~= push_recent(
            packet_views(before),
            metadata@,
        ));
    }

    /// Records an uplink packet's metadata.
    pub fn record_uplink(&mut self, metadata: PacketMetadata)
        ensures
            final(self)@ == old(self)@.record_uplink(metadata@),
    {
        self.uplink_count = self.uplink_count.wrapping_add(1);
        self.store_packet(metadata);
    }

    /// Records a downlink.
    pub fn record_downlink(&mut self)
        ensures
            final(self)@ == old(self)@.record_downlink(),
    {
        self.downlink_count = self.downlink_count.wrapping_add(1);
    }

    /// Takes over the place that the gateway gave in a STAT packet.
    pub fn locate(&mut self, latitude: u64, longitude: u64, altitude: Option<i64>)
        ensures
            final(self)@ == old(self)@.locate(latitude, longitude, altitude),
    {
        self.latitude = Some(latitude);
        self.longitude = Some(longitude);
        self.altitude = altitude;
    }

    /// The recent packets, the oldest first.
    pub fn recent_packets(&self) -> (packets: Vec<PacketMetadata>)
        ensures
            packet_views(packets@) == self@.recent_packets,
    {
        let mut packets: Vec<PacketMetadata> = Vec::new();
        let mut i: usize = 0;
        while i < self.recent_packets.len()
            invariant
                i <= self.recent_packets@.len(),
                packet_views(packets@) == packet_views(self.recent_packets@).take(i as int),
            decreases self.recent_packets@.len() - i,
        {
            let ghost before = packets@;
            packets.push(self.recent_packets[i].clone());
            assert(packet_views(packets@) =~= packet_views(before).push(
                self.recent_packets@[i as int]@,
            ));
            assert(packet_views(self.recent_packets@).take(i + 1) =~= packet_views(
                self.recent_packets@,
            ).take(i as int).push(self.recent_packets@[i as int]@));
            i += 1;
        }
        assert(packet_views(self.recent_packets@).take(i as int) =~= self@.recent_packets);
        packets
    }
}

/// The recent packets after a number of packets, one after the other.
pub open spec fn push_all(recent: Seq<PacketView>, packets: Seq<PacketView>) -> Seq<PacketView>
    decreases packets.len(),
{
    if packets.len() == 0 {
        recent
    } else {
        push_recent(push_all(recent, packets.drop_last()), packets.last())
    }
}

/// The recent packets are always the last ones, in the order in which they came, and never more
/// than there is room for.
pub proof fn law_recent_packets_are_the_last_ones(packets: Seq<PacketView>)
    ensures
        push_all(Seq::empty(), packets) == packets.skip(
            if packets.len() > MAX_RECENT_PACKETS {
                packets.len() - MAX_RECENT_PACKETS
            } else {
                0
            },
        ),
        push_all(Seq::empty(), packets).len() <= MAX_RECENT_PACKETS,
    decreases packets.len(),
{
    if packets.len() == 0 {
        assert(packets.skip(0) =~= Seq::<PacketView>::empty());
    } else {
        law_recent_packets_are_the_last_ones(packets.drop_last());
        let start = if packets.len() > MAX_RECENT_PACKETS {
            packets.len() - MAX_RECENT_PACKETS
        } else {
            0
        };
        assert(push_all(Seq::empty(), packets) =~= packets.skip(start));
    }
}

/// Whatever happens to a gateway, it is connected exactly while it has a connection time, a router
/// task and a channel, and it keeps no more packets than there is room for.
pub proof fn law_gateways_stay_well_formed(
    entry: EntryView,
    now: u64,
    finished: bool,
    packet: PacketView,
    latitude: u64,
    longitude: u64,
    altitude: Option<i64>,
)
    requires
        entry.wf(),
    ensures
        entry.connect(now).wf(),
        entry.disconnect().wf(),
        entry.check_task(finished).wf(),
        entry.note_uplink(now).wf(),
        entry.store_packet(packet).wf(),
        entry.record_uplink(packet).wf(),
        entry.record_downlink().wf(),
        entry.locate(latitude, longitude, altitude).wf(),
{
}

/// A connection that ends leaves the gateway as it was before it, had it been disconnected then.
pub proof fn law_disconnect_undoes_connect(entry: EntryView, now: u64)
    requires
        entry.wf(),
        !entry.connected,
    ensures
        entry.connect(now).disconnect() == entry,
{
}

/// A gateway that connects while it is connected ends up as if the earlier connection had ended
/// first.
pub proof fn law_reconnect_is_disconnect_and_connect(entry: EntryView, before: u64, now: u64)
    ensures
        entry.connect(before).connect(now) == entry.disconnect().connect(now),
{
}

/// Uplinks and downlinks are counted apart: an uplink leaves the count of downlinks as it is, and a
/// downlink that is kept leaves that of uplinks.
pub proof fn law_uplinks_and_downlinks_are_counted_apart(entry: EntryView, packet: PacketView)
    ensures
        entry.record_uplink(packet).uplink_count == counted(entry.uplink_count),
        entry.record_uplink(packet).downlink_count == entry.downlink_count,
        entry.record_downlink().store_packet(packet).downlink_count == counted(
            entry.downlink_count,
        ),
        entry.record_downlink().store_packet(packet).uplink_count == entry.uplink_count,
{
}

/// A new gateway has its MAC address and its keypair and nothing else.
pub proof fn law_new_gateway_is_empty(mac: Seq<u8>, keypair: KeypairView)
    ensures
        ({
            let entry = EntryView::fresh(mac, keypair);
            &&& entry.mac == mac
            &&& entry.keypair == keypair
            &&& !entry.connected
            &&& entry.connected_since is None
            &&& entry.last_uplink is None
            &&& !entry.uplink_tx
            &&& !entry.task_handle
            &&& entry.recent_packets.len() == 0
            &&& entry.uplink_count == 0
            &&& entry.downlink_count == 0
            &&& entry.latitude is None
            &&& entry.longitude is None
            &&& entry.altitude is None
        }),
{
}

/// Whether two states of a gateway differ in nothing but the connection and the time of the last
/// uplink.
pub open spec fn same_but_for_connection(a: EntryView, b: EntryView) -> bool {
    &&& a.mac == b.mac
    &&& a.keypair == b.keypair
    &&& a.recent_packets == b.recent_packets
    &&& a.uplink_count == b.uplink_count
    &&& a.downlink_count == b.downlink_count
    &&& a.latitude == b.latitude
    &&& a.longitude == b.longitude
    &&& a.altitude == b.altitude
}

/// Connecting and disconnecting change the connection, its time, its task and its channel, and
/// nothing else. A connection is made now.
pub proof fn law_connections_change_only_the_connection(
    entry: EntryView,
    now: u64,
    finished: bool,
)
    ensures
        same_but_for_connection(entry.connect(now), entry),
        entry.connect(now).last_uplink == entry.last_uplink,
        entry.connect(now).connected,
        entry.connect(now).connected_since == Some(now),
        entry.connect(now).uplink_tx,
        entry.connect(now).task_handle,
        same_but_for_connection(entry.disconnect(), entry),
        entry.disconnect().last_uplink == entry.last_uplink,
        !entry.disconnect().connected,
        entry.disconnect().connected_since is None,
        !entry.disconnect().uplink_tx,
        !entry.disconnect().task_handle,
        entry.wf() && !finished ==> entry.check_task(finished) == entry,
        entry.wf() && !entry.connected ==> entry.check_task(finished) == entry,
        entry.wf() && finished ==> !entry.check_task(finished).connected,
        same_but_for_connection(entry.check_task(finished), entry),
        entry.check_task(finished).last_uplink == entry.last_uplink,
        same_but_for_connection(entry.note_uplink(now), entry),
        entry.note_uplink(now).last_uplink == Some(now),
        entry.note_uplink(now).connected == entry.connected,
        entry.note_uplink(now).connected_since == entry.connected_since,
        entry.note_uplink(now).uplink_tx == entry.uplink_tx,
        entry.note_uplink(now).task_handle == entry.task_handle,
{
}

/// Whether two states of a gateway differ in nothing but its packets, its counts and its place.
pub open spec fn same_connection(a: EntryView, b: EntryView) -> bool {
    &&& a.mac == b.mac
    &&& a.keypair == b.keypair
    &&& a.connected == b.connected
    &&& a.connected_since == b.connected_since
    &&& a.last_uplink == b.last_uplink
    &&& a.uplink_tx == b.uplink_tx
    &&& a.task_handle == b.task_handle
}

/// Recording an uplink counts one uplink more and keeps the packet as the last one; recording a
/// downlink counts one downlink more; a report of the place changes the place. Each leaves the
/// rest, and the connection, as it is.
pub proof fn law_records_change_only_what_they_record(
    entry: EntryView,
    packet: PacketView,
    latitude: u64,
    longitude: u64,
    altitude: Option<i64>,
)
    ensures
        ({
            let after = entry.record_uplink(packet);
            &&& same_connection(after, entry)
            &&& entry.uplink_count < u64::MAX ==> after.uplink_count == entry.uplink_count + 1
            &&& after.downlink_count == entry.downlink_count
            &&& after.recent_packets.len() > 0 && after.recent_packets.last() == packet
            &&& after.recent_packets == entry.store_packet(packet).recent_packets
            &&& after.latitude == entry.latitude
            &&& after.longitude == entry.longitude
            &&& after.altitude == entry.altitude
        }),
        ({
            let after = entry.record_downlink();
            &&& same_connection(after, entry)
            &&& after.uplink_count == entry.uplink_count
            &&& entry.downlink_count < u64::MAX ==> after.downlink_count == entry.downlink_count + 1
            &&& after.recent_packets == entry.recent_packets
            &&& after.latitude == entry.latitude
            &&& after.longitude == entry.longitude
            &&& after.altitude == entry.altitude
        }),
        ({
            let after = entry.store_packet(packet);
            &&& same_connection(after, entry)
            &&& after.uplink_count == entry.uplink_count
            &&& after.downlink_count == entry.downlink_count
            &&& after.recent_packets.len() > 0 && after.recent_packets.last() == packet
            &&& after.latitude == entry.latitude
            &&& after.longitude == entry.longitude
            &&& after.altitude == entry.altitude
        }),
        ({
            let after = entry.locate(latitude, longitude, altitude);
            &&& same_connection(after, entry)
            &&& after.uplink_count == entry.uplink_count
            &&& after.downlink_count == entry.downlink_count
            &&& after.recent_packets == entry.recent_packets
            &&& after.latitude == Some(latitude)
            &&& after.longitude == Some(longitude)
            &&& after.altitude == altitude
        }),
{
}

/// A packet that is kept stands behind all that are kept with it, which are as they were. Up to 200
/// are kept; only when there are as many does the oldest one go.
pub proof fn law_keeping_a_packet_drops_at_most_the_oldest(entry: EntryView, packet: PacketView)
    ensures
        ({
            let before = entry.recent_packets;
            let after = entry.store_packet(packet).recent_packets;
            &&& before.len() < 200 ==> after == before.push(packet)
            &&& before.len() >= 200 ==> after == before.skip(1).push(packet)
        }),
{
    let before = entry.recent_packets;
    if before.len() >= 200 {
        assert(before.drop_first() =~= before.skip(1));
    }
}

/// A count goes up by one, and starts again from zero behind the largest number.
pub proof fn law_counts_go_up_by_one(count: u64)
    ensures
        count < u64::MAX ==> counted(count) == count + 1,
        count == u64::MAX ==> counted(count) == 0,
{
}

/// What is said of packets is said of each of them.
pub proof fn law_packets_are_each_packet(packets: Seq<PacketMetadata>)
    ensures
        packet_views(packets).len() == packets.len(),
        forall|i: int| 0 <= i < packets.len() ==> #[trigger] packet_views(packets)[i] == packets[i]@,
{
}

} // verus!
