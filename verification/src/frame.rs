//! LoRaWAN frame headers.
use vstd::prelude::*;
use crate::mac::{bytes_to_hex, hex_text};
use crate::mac::law_hex_text_is_each_byte_in_base_sixteen;
use crate::text::text_view;

verus! {

/// LoRaWAN frame type, as the first byte of a frame (MHDR) tells it.
#[derive(Clone, Copy, Debug, PartialEq, Eq, Structural)]
pub enum FrameType {
    JoinRequest,
    JoinAccept,
    UnconfirmedUp,
    UnconfirmedDown,
    ConfirmedUp,
    ConfirmedDown,
    RejoinRequest,
    Proprietary,
    Unknown,
}

/// The header fields of a frame.
pub struct FrameFields {
    pub frame_type: FrameType,
    /// Device address, as hexadecimal text (data frames only).
    pub dev_addr: Option<Seq<char>>,
    /// Frame counter (data frames only).
    pub fcnt: Option<u16>,
    /// Port (data frames only, absent if there is no payload).
    pub fport: Option<u8>,
}

/// The frame type in the top three bits of the first byte.
pub open spec fn frame_type_of(mhdr: u8) -> FrameType {
    let mtype = mhdr as int / 32;
    if mtype == 0 {
        FrameType::JoinRequest
    } else if mtype == 1 {
        FrameType::JoinAccept
    } else if mtype == 2 {
        FrameType::UnconfirmedUp
    } else if mtype == 3 {
        FrameType::UnconfirmedDown
    } else if mtype == 4 {
        FrameType::ConfirmedUp
    } else if mtype == 5 {
        FrameType::ConfirmedDown
    } else if mtype == 6 {
        FrameType::RejoinRequest
    } else {
        FrameType::Proprietary
    }
}

/// Whether frames of this type carry data, and so a device address and a counter.
pub open spec fn carries_data(frame_type: FrameType) -> bool {
    ||| frame_type == FrameType::UnconfirmedUp
    ||| frame_type == FrameType::UnconfirmedDown
    ||| frame_type == FrameType::ConfirmedUp
    ||| frame_type == FrameType::ConfirmedDown
}

/// Bytes of a data frame before its options: MHDR, device address, control byte and counter.
pub open spec fn data_header_len() -> int {
    8
}

/// Bytes of the integrity code at the end of a frame.
pub open spec fn mic_len() -> int {
    4
}

/// Where the port of a data frame stands: behind the options, whose length is the low half of
/// the control byte.
pub open spec fn fport_offset(data: Seq<u8>) -> int {
    data_header_len() + data[5] as int % 16
}

/// The header fields of a raw frame.
pub open spec fn frame_fields(data: Seq<u8>) -> FrameFields {
    if data.len() == 0 {
        FrameFields { frame_type: FrameType::Unknown, dev_addr: None, fcnt: None, fport: None }
    } else {
        let frame_type = frame_type_of(data[0]);
        if !carries_data(frame_type) || data.len() < data_header_len() {
            FrameFields { frame_type, dev_addr: None, fcnt: None, fport: None }
        } else {
            FrameFields {
                frame_type,
                // The address is sent low byte first.
                dev_addr: Some(hex_text(seq![data[4], data[3], data[2], data[1]])),
                fcnt: Some((data[6] + 256 * data[7]) as u16),
                fport: if data.len() > fport_offset(data) + mic_len() {
                    Some(data[fport_offset(data)])
                } else {
                    None
                },
            }
        }
    }
}

/// Reads the header fields of a raw frame: its type, device address, frame counter and port.
pub fn parse_lorawan_frame(data: &[u8]) -> (fields: (
    FrameType,
    Option<String>,
    Option<u16>,
    Option<u8>,
))
    ensures
        fields.0 == frame_fields(data@).frame_type,
        text_view(fields.1) == frame_fields(data@).dev_addr,
        fields.2 == frame_fields(data@).fcnt,
        fields.3 == frame_fields(data@).fport,
{
    if data.len() == 0 {
        return (FrameType::Unknown, None, None, None);
    }
    let mhdr = data[0];
    let mtype: u8 = (mhdr >> 5) & 0x07;
    assert(mtype == mhdr / 32) by (bit_vector)
        requires
            mtype == (mhdr >> 5) & 0x07,
    ;
    let frame_type = match mtype {
        0 => FrameType::JoinRequest,
        1 => FrameType::JoinAccept,
        2 => FrameType::UnconfirmedUp,
        3 => FrameType::UnconfirmedDown,
        4 => FrameType::ConfirmedUp,
        5 => FrameType::ConfirmedDown,
        6 => FrameType::RejoinRequest,
        7 => FrameType::Proprietary,
        _ => FrameType::Unknown,
    };
    let is_data_frame = 2 <= mtype && mtype <= 5;
    if !is_data_frame || data.len() < 8 {
        return (frame_type, None, None, None);
    }
    let address: [u8; 4] = [data[4], data[3], data[2], data[1]];
    let dev_addr = bytes_to_hex(vstd::array::array_as_slice(&address));
    assert(address@ =~= seq![data@[4], data@[3], data@[2], data@[1]]);

    let fctrl = data[5];
    let fopts_len: u8 = fctrl & 0x0F;
    assert(fopts_len == fctrl % 16) by (bit_vector)
        requires
            fopts_len == fctrl & 0x0F,
    ;
    let fcnt: u16 = data[6] as u16 + 256 * (data[7] as u16);

    let offset: usize = 8 + fopts_len as usize;
    let fport = if data.len() > offset + 4 {
        Some(data[offset])
    } else {
        None
    };
    (frame_type, Some(dev_addr), Some(fcnt), fport)
}

/// Only a data frame has an address, a counter or a port; it has an address exactly if it has a
/// counter, and a port only with them.
pub proof fn law_only_data_frames_have_header_fields(data: Seq<u8>)
    ensures
        frame_fields(data).dev_addr is Some <==> data.len() >= data_header_len() && carries_data(
            frame_fields(data).frame_type,
        ),
        frame_fields(data).dev_addr is Some <==> frame_fields(data).fcnt is Some,
        frame_fields(data).fport is Some ==> frame_fields(data).fcnt is Some,
{
}

/// Every frame but the empty one has a known type.
pub proof fn law_only_the_empty_frame_is_unknown(data: Seq<u8>)
    ensures
        frame_fields(data).frame_type == FrameType::Unknown <==> data.len() == 0,
{
}

/// The type of a frame is told by the three highest bits of its first byte: the types have 32 first
/// bytes each, in their order. A frame without bytes has no type.
pub proof fn law_frame_type_is_the_three_highest_bits(data: Seq<u8>)
    ensures
        data.len() == 0 ==> frame_fields(data).frame_type == FrameType::Unknown,
        data.len() > 0 ==> {
            let found = frame_fields(data).frame_type;
            &&& found == FrameType::JoinRequest <==> data[0] < 32
            &&& found == FrameType::JoinAccept <==> 32 <= data[0] < 64
            &&& found == FrameType::UnconfirmedUp <==> 64 <= data[0] < 96
            &&& found == FrameType::UnconfirmedDown <==> 96 <= data[0] < 128
            &&& found == FrameType::ConfirmedUp <==> 128 <= data[0] < 160
            &&& found == FrameType::ConfirmedDown <==> 160 <= data[0] < 192
            &&& found == FrameType::RejoinRequest <==> 192 <= data[0] < 224
            &&& found == FrameType::Proprietary <==> 224 <= data[0]
        },
{
}

/// Every data frame of at least eight bytes has a device address, and no other frame has one. It is
/// the number that the bytes from the second to the fifth are, the lowest byte first, as eight
/// upper-case hexadecimal digits.
pub proof fn law_device_address_is_a_little_endian_number(data: Seq<u8>)
    ensures
        frame_fields(data).dev_addr is Some <==> data.len() >= 8 && 64 <= data[0] < 192,
        frame_fields(data).dev_addr matches Some(text) ==> {
            let number = |c: char|
                if '0' <= c <= '9' {
                    c as int - 48
                } else {
                    c as int - 55
                };
            &&& text.len() == 8
            &&& forall|i: int|
                0 <= i < 8 ==> '0' <= #[trigger] text[i] <= '9' || 'A' <= text[i] <= 'F'
            &&& 0x1000_0000 * number(text[0]) + 0x100_0000 * number(text[1]) + 0x10_0000 * number(
                text[2],
            ) + 0x1_0000 * number(text[3]) + 0x1000 * number(text[4]) + 0x100 * number(text[5])
                + 0x10 * number(text[6]) + number(text[7]) == data[1] + 0x100 * data[2] + 0x1_0000
                * data[3] + 0x100_0000 * data[4]
        },
{
    if data.len() >= 8 && 64 <= data[0] < 192 {
        let bytes = seq![data[4], data[3], data[2], data[1]];
        let text = hex_text(bytes);
        law_hex_text_is_each_byte_in_base_sixteen(bytes);
        assert(frame_fields(data).dev_addr == Some(text));
        assert(bytes[0] == data[4] && bytes[1] == data[3] && bytes[2] == data[2] && bytes[3]
            == data[1]);
        assert forall|i: int| 0 <= i < 8 implies '0' <= #[trigger] text[i] <= '9' || 'A' <= text[i]
            <= 'F' by {
            let k = i / 2;
            assert(bytes[k] == bytes[k]);
            assert(i == 2 * k || i == 2 * k + 1);
        }
    }
}

/// Two data frames with the same four address bytes have the same device address, whatever types
/// they are of and whatever else they hold; with different ones they have different addresses.
pub proof fn law_device_address_is_the_address_bytes_alone(a: Seq<u8>, b: Seq<u8>)
    requires
        a.len() >= 8,
        b.len() >= 8,
        64 <= a[0] < 192,
        64 <= b[0] < 192,
    ensures
        frame_fields(a).dev_addr == frame_fields(b).dev_addr <==> a.subrange(1, 5) == b.subrange(
            1,
            5,
        ),
{
    law_device_address_is_a_little_endian_number(a);
    law_device_address_is_a_little_endian_number(b);
    let s = a.subrange(1, 5);
    let t = b.subrange(1, 5);
    assert(s[0] == a[1] && s[1] == a[2] && s[2] == a[3] && s[3] == a[4]);
    assert(t[0] == b[1] && t[1] == b[2] && t[2] == b[3] && t[3] == b[4]);
    if frame_fields(a).dev_addr == frame_fields(b).dev_addr {
        assert(s =~= t);
    }
    if s == t {
        assert(seq![a[4], a[3], a[2], a[1]] =~= seq![b[4], b[3], b[2], b[1]]);
    }
}

/// The counter of a data frame is the number that its seventh and eighth bytes are, the lower byte
/// first.
pub proof fn law_frame_counter_is_a_little_endian_number(data: Seq<u8>)
    ensures
        frame_fields(data).fcnt is Some <==> data.len() >= 8 && 64 <= data[0] < 192,
        frame_fields(data).fcnt matches Some(count) ==> count == data[6] + 256 * data[7],
{
}

/// The port of a data frame is the byte behind the eight bytes of header and the options, as many
/// as the lower half of the sixth byte tells. There is one if more than the four bytes of integrity
/// code follow the options.
pub proof fn law_port_follows_the_options(data: Seq<u8>)
    ensures
        frame_fields(data).fport is Some <==> data.len() >= 8 && 64 <= data[0] < 192 && data.len()
            > 12 + data[5] % 16,
        frame_fields(data).fport matches Some(port) ==> port == data[8 + data[5] % 16],
{
}

} // verus!
