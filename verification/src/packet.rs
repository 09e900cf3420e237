//! Metadata of the packets that gateways receive and send.
use vstd::prelude::*;
use crate::frame::{parse_lorawan_frame, FrameType};
use crate::frame::frame_fields;
use crate::text::{copy_text, text_view};

verus! {

/// Metadata of a single packet.
///
/// Signal quantities that are fractions are kept as the bits of their IEEE 754 encoding.
#[derive(Debug)]
pub struct PacketMetadata {
    pub rssi: i32,
    /// Signal-to-noise ratio: the bits of a single-precision number.
    pub snr: u32,
    /// Frequency: the bits of a double-precision number.
    pub frequency: u64,
    pub spreading_factor: String,
    pub payload_size: usize,
    /// Unix timestamp in milliseconds.
    pub timestamp: u64,
    pub frame_type: FrameType,
    /// Device address as hexadecimal text (data frames only).
    pub dev_addr: Option<String>,
    /// Frame counter (data frames only).
    pub fcnt: Option<u16>,
    /// Port (data frames only, absent if there is no payload).
    pub fport: Option<u8>,
}

/// What the metadata of a packet holds.
#[verifier::ext_equal]
pub struct PacketView {
    pub rssi: i32,
    pub snr: u32,
    pub frequency: u64,
    pub spreading_factor: Seq<char>,
    pub payload_size: usize,
    pub timestamp: u64,
    pub frame_type: FrameType,
    pub dev_addr: Option<Seq<char>>,
    pub fcnt: Option<u16>,
    pub fport: Option<u8>,
}

impl View for PacketMetadata {
    type V = PacketView;

    open spec fn view(&self) -> PacketView {
        PacketView {
            rssi: self.rssi,
            snr: self.snr,
            frequency: self.frequency,
            spreading_factor: self.spreading_factor@,
            payload_size: self.payload_size,
            timestamp: self.timestamp,
            frame_type: self.frame_type,
            dev_addr: text_view(self.dev_addr),
            fcnt: self.fcnt,
            fport: self.fport,
        }
    }
}

/// The timestamp for a reading of the wall clock, in milliseconds since the Unix epoch: its low
/// 64 bits, and zero for a clock that stands before the epoch.
pub open spec fn unix_millis(since_epoch: Option<u128>) -> u64 {
    match since_epoch {
        Some(millis) => (millis % 0x1_0000_0000_0000_0000) as u64,
        None => 0,
    }
}

/// The metadata of a packet with this payload.
pub open spec fn packet_of(
    rssi: i32,
    snr: u32,
    frequency: u64,
    spreading_factor: Seq<char>,
    payload: Seq<u8>,
    since_epoch: Option<u128>,
) -> PacketView {
    PacketView {
        rssi,
        snr,
        frequency,
        spreading_factor,
        payload_size: payload.len() as usize,
        timestamp: unix_millis(since_epoch),
        frame_type: frame_fields(payload).frame_type,
        dev_addr: frame_fields(payload).dev_addr,
        fcnt: frame_fields(payload).fcnt,
        fport: frame_fields(payload).fport,
    }
}

impl PacketMetadata {
    /// Collects the metadata of a packet. `since_epoch` is what the wall clock shows, in
    /// milliseconds since the Unix epoch; `None` if it stands before the epoch.
    pub fn from_rxpk_data(
        rssi: i32,
        snr: u32,
        frequency: u64,
        spreading_factor: String,
        payload: &[u8],
        since_epoch: Option<u128>,
    ) -> (metadata: PacketMetadata)
        ensures
            metadata@ == packet_of(
                rssi,
                snr,
                frequency,
                spreading_factor@,
                payload@,
                since_epoch,
            ),
            metadata.payload_size == payload@.len(),
            metadata.rssi == rssi,
            metadata.snr == snr,
            metadata.frequency == frequency,
            metadata.spreading_factor@ == spreading_factor@,
            since_epoch matches Some(millis) ==> (millis <= u64::MAX ==> metadata.timestamp == millis),
            since_epoch is None ==> metadata.timestamp == 0,
    {
        let timestamp: u64 = match since_epoch {
            Some(millis) => (millis % 0x1_0000_0000_0000_0000) as u64,
            None => 0,
        };
        let (frame_type, dev_addr, fcnt, fport) = parse_lorawan_frame(payload);
        PacketMetadata {
            rssi,
            snr,
            frequency,
            spreading_factor,
            payload_size: payload.len(),
            timestamp,
            frame_type,
            dev_addr,
            fcnt,
            fport,
        }
    }
}

impl Clone for PacketMetadata {
    fn clone(&self) -> (copy: Self)
        ensures
            copy@ == self@,
            copy.rssi == self.rssi,
            copy.snr == self.snr,
            copy.frequency == self.frequency,
            copy.spreading_factor@ == self.spreading_factor@,
            copy.payload_size == self.payload_size,
            copy.timestamp == self.timestamp,
            copy.frame_type == self.frame_type,
            copy.fcnt == self.fcnt,
            copy.fport == self.fport,
    {
        PacketMetadata {
            rssi: self.rssi,
            snr: self.snr,
            frequency: self.frequency,
            spreading_factor: self.spreading_factor.clone(),
            payload_size: self.payload_size,
            timestamp: self.timestamp,
            frame_type: self.frame_type,
            dev_addr: copy_text(&self.dev_addr),
            fcnt: self.fcnt,
            fport: self.fport,
        }
    }
}

/// The metadata of a packet holds what was measured of it, as it was measured, the length of its
/// payload, the time on the wall clock and the header fields of its payload.
pub proof fn law_metadata_is_what_was_measured(
    rssi: i32,
    snr: u32,
    frequency: u64,
    spreading_factor: Seq<char>,
    payload: Seq<u8>,
    since_epoch: Option<u128>,
)
    requires
        payload.len() <= usize::MAX,
    ensures
        ({
            let metadata = packet_of(rssi, snr, frequency, spreading_factor, payload, since_epoch);
            &&& metadata.rssi == rssi
            &&& metadata.snr == snr
            &&& metadata.frequency == frequency
            &&& metadata.spreading_factor == spreading_factor
            &&& metadata.payload_size == payload.len()
            &&& metadata.frame_type == frame_fields(payload).frame_type
            &&& metadata.dev_addr == frame_fields(payload).dev_addr
            &&& metadata.fcnt == frame_fields(payload).fcnt
            &&& metadata.fport == frame_fields(payload).fport
        }),
{
}

/// The timestamp of a packet is the number of milliseconds since the Unix epoch, as long as it fits,
/// and grows with it; beyond that it starts again from zero. A clock before the epoch gives zero.
pub proof fn law_timestamp_is_the_milliseconds(millis: u128)
    ensures
        millis <= u64::MAX ==> unix_millis(Some(millis)) == millis,
        millis > u64::MAX ==> unix_millis(Some(millis)) == unix_millis(
            Some((millis - u64::MAX - 1) as u128),
        ),
        unix_millis(None) == 0,
{
}

/// What is said of metadata is said of its fields.
pub proof fn law_metadata_is_its_fields(metadata: PacketMetadata)
    ensures
        metadata@.rssi == metadata.rssi,
        metadata@.snr == metadata.snr,
        metadata@.frequency == metadata.frequency,
        metadata@.spreading_factor == metadata.spreading_factor@,
        metadata@.payload_size == metadata.payload_size,
        metadata@.timestamp == metadata.timestamp,
        metadata@.frame_type == metadata.frame_type,
        metadata@.dev_addr is Some <==> metadata.dev_addr is Some,
        metadata@.dev_addr matches Some(text) ==> text == metadata.dev_addr->0@,
        metadata@.fcnt == metadata.fcnt,
        metadata@.fport == metadata.fport,
{
}

} // verus!
