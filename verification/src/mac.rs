//! Gateway MAC addresses and their hexadecimal text.
use vstd::prelude::*;
use vstd::string::*;

verus! {

/// The eight octets that identify a gateway.
#[derive(Clone, Copy, Debug)]
pub struct MacAddress {
    pub bytes: [u8; 8],
}

impl View for MacAddress {
    type V = Seq<u8>;

    open spec fn view(&self) -> Seq<u8> {
        self.bytes@
    }
}

/// The hexadecimal digit of a value below sixteen, in upper case.
pub open spec fn hex_digit(value: int) -> char {
    if value < 10 {
        (value + '0' as int) as char
    } else {
        (value - 10 + 'A' as int) as char
    }
}

/// The value of a hexadecimal digit in either case, if the character is one.
pub open spec fn hex_value(c: char) -> Option<int> {
    if '0' <= c <= '9' {
        Some(c as int - '0' as int)
    } else if 'A' <= c <= 'F' {
        Some(c as int - 'A' as int + 10)
    } else if 'a' <= c <= 'f' {
        Some(c as int - 'a' as int + 10)
    } else {
        None
    }
}

/// Two upper-case hexadecimal digits for each byte, the high half first.
pub open spec fn hex_text(bytes: Seq<u8>) -> Seq<char> {
    Seq::new(
        2 * bytes.len(),
        |i: int|
            if i % 2 == 0 {
                hex_digit(bytes[i / 2] as int / 16)
            } else {
                hex_digit(bytes[i / 2] as int % 16)
            },
    )
}

/// A text of exactly sixteen hexadecimal digits.
pub open spec fn is_mac_text(text: Seq<char>) -> bool {
    &&& text.len() == 16
    &&& forall|i: int| 0 <= i < 16 ==> hex_value(#[trigger] text[i]) is Some
}

/// The octets that sixteen hexadecimal digits spell.
pub open spec fn mac_of_text(text: Seq<char>) -> Seq<u8> {
    Seq::new(
        8,
        |i: int| (hex_value(text[2 * i])->0 * 16 + hex_value(text[2 * i + 1])->0) as u8,
    )
}

/// The number under which a table keeps the gateway with these octets.
pub open spec fn mac_key(octets: Seq<u8>) -> u64 {
    vstd::bytes::spec_u64_from_le_bytes(octets)
}

impl MacAddress {
    /// The number under which a table keeps this gateway.
    pub fn key(&self) -> (key: u64)
        ensures
            key == mac_key(self@),
    {
        vstd::bytes::u64_from_le_bytes(vstd::array::array_as_slice(&self.bytes))
    }
}

/// The text of one hexadecimal digit.
fn hex_digit_text(value: u8) -> (text: &'static str)
    requires
        value < 16,
    ensures
        text@ == seq![hex_digit(value as int)],
{
    proof {
        reveal_strlit("0");
        reveal_strlit("1");
        reveal_strlit("2");
        reveal_strlit("3");
        reveal_strlit("4");
        reveal_strlit("5");
        reveal_strlit("6");
        reveal_strlit("7");
        reveal_strlit("8");
        reveal_strlit("9");
        reveal_strlit("A");
        reveal_strlit("B");
        reveal_strlit("C");
        reveal_strlit("D");
        reveal_strlit("E");
        reveal_strlit("F");
    }
    match value {
        0 => "0",
        1 => "1",
        2 => "2",
        3 => "3",
        4 => "4",
        5 => "5",
        6 => "6",
        7 => "7",
        8 => "8",
        9 => "9",
        10 => "A",
        11 => "B",
        12 => "C",
        13 => "D",
        14 => "E",
        _ => "F",
    }
}

/// Writes bytes as upper-case hexadecimal text.
pub fn bytes_to_hex(bytes: &[u8]) -> (text: String)
    ensures
        text@ == hex_text(bytes@),
{
    let mut text = String::new();
    let mut i: usize = 0;
    while i < bytes.len()
        invariant
            i <= bytes@.len(),
            text@ == hex_text(bytes@.take(i as int)),
        decreases bytes@.len() - i,
    {
        let ghost before = text@;
        text.append(hex_digit_text(bytes[i] / 16));
        text.append(hex_digit_text(bytes[i] % 16));
        proof {
            let next = hex_text(bytes@.take(i + 1));
            assert(next.len() == before.len() + 2);
            assert forall|j: int| 0 <= j < next.len() implies text@[j] == next[j] by {
                if j < before.len() {
                    assert(before[j] == hex_text(bytes@.take(i as int))[j]);
                }
            }
            assert(text@ =~= next);
        }
        i += 1;
    }
    proof {
        assert(bytes@.take(i as int) =~= bytes@);
    }
    text
}

/// The value of an ASCII byte as a hexadecimal digit.
fn hex_byte_value(byte: u8) -> (value: Option<u8>)
    requires
        byte < 128,
    ensures
        value matches Some(v) ==> v < 16 && hex_value(byte as char) == Some(v as int),
        value is None ==> hex_value(byte as char) is None,
{
    if 0x30 <= byte && byte <= 0x39 {
        Some(byte - 0x30)
    } else if 0x41 <= byte && byte <= 0x46 {
        Some(byte - 0x41 + 10)
    } else if 0x61 <= byte && byte <= 0x66 {
        Some(byte - 0x61 + 10)
    } else {
        None
    }
}

/// Reads a MAC address from a key name: sixteen hexadecimal digits, in either case.
pub fn parse_mac_from_name(name: &str) -> (mac: Option<MacAddress>)
    ensures
        match mac {
            Some(m) => is_mac_text(name@) && m@ == mac_of_text(name@),
            None => !is_mac_text(name@),
        },
{
    if !name.is_ascii() {
        proof {
            if is_mac_text(name@) {
                assert forall|i: int| 0 <= i < name@.len() implies '\0' <= #[trigger] name@[i]
                    <= '\u{7f}' by {
                    assert(hex_value(name@[i]) is Some);
                }
                assert(name.is_ascii());
            }
        }
        return None;
    }
    let text = name.as_bytes();
    proof {
        is_ascii_spec_bytes(name);
        assert(text@.len() == name@.len());
    }
    if text.len() != 16 {
        return None;
    }
    let mut bytes: [u8; 8] = [0u8; 8];
    let mut i: usize = 0;
    while i < 8
        invariant
            i <= 8,
            text@.len() == 16,
            name@.len() == 16,
            forall|j: int| 0 <= j < 16 ==> text@[j] < 128 && #[trigger] text@[j] as char == name@[j],
            forall|j: int| 0 <= j < 2 * i ==> hex_value(#[trigger] name@[j]) is Some,
            forall|j: int| 0 <= j < i ==> #[trigger] bytes@[j] == mac_of_text(name@)[j],
        decreases 8 - i,
    {
        let ghost at = 2 * i as int;
        assert(text@[at] as char == name@[at]);
        assert(text@[at + 1] as char == name@[at + 1]);
        let high = match hex_byte_value(text[2 * i]) {
            Some(v) => v,
            None => {
                assert(!is_mac_text(name@));
                return None;
            },
        };
        let low = match hex_byte_value(text[2 * i + 1]) {
            Some(v) => v,
            None => {
                assert(!is_mac_text(name@));
                return None;
            },
        };
        bytes[i] = high * 16 + low;
        i += 1;
    }
    let mac = MacAddress { bytes };
    assert(mac@ =~= mac_of_text(name@));
    Some(mac)
}

/// The upper-case form of an ASCII letter; any other character as it is.
pub open spec fn ascii_upper(c: char) -> char {
    if 'a' <= c <= 'z' {
        (c as int - 'a' as int + 'A' as int) as char
    } else {
        c
    }
}

/// A key name reads back as the MAC address it was written for.
pub proof fn law_key_name_reads_back(octets: Seq<u8>)
    requires
        octets.len() == 8,
    ensures
        is_mac_text(hex_text(octets)),
        mac_of_text(hex_text(octets)) == octets,
{
    let text = hex_text(octets);
    assert forall|i: int| 0 <= i < 8 implies #[trigger] mac_of_text(text)[i] == octets[i] by {
        assert(text[2 * i] == hex_digit(octets[i] as int / 16));
        assert(text[2 * i + 1] == hex_digit(octets[i] as int % 16));
    }
    assert(mac_of_text(text) =~= octets);
}

/// Writing what was read from a key name gives the same name in upper case.
pub proof fn law_key_name_is_written_in_upper_case(text: Seq<char>)
    requires
        is_mac_text(text),
    ensures
        hex_text(mac_of_text(text)) == text.map_values(|c: char| ascii_upper(c)),
{
    let octets = mac_of_text(text);
    let written = hex_text(octets);
    assert forall|i: int| 0 <= i < 16 implies #[trigger] written[i] == ascii_upper(text[i]) by {
        let k = i / 2;
        assert(hex_value(text[2 * k]) is Some);
        assert(hex_value(text[2 * k + 1]) is Some);
        assert(octets[k] == hex_value(text[2 * k])->0 * 16 + hex_value(text[2 * k + 1])->0);
        assert(hex_value(text[i]) is Some);
    }
    assert(written =~= text.map_values(|c: char| ascii_upper(c)));
}

/// Two gateways with the same key name are the same gateway.
pub proof fn law_key_names_are_unique(a: Seq<u8>, b: Seq<u8>)
    requires
        a.len() == 8,
        b.len() == 8,
        hex_text(a) == hex_text(b),
    ensures
        a == b,
{
    law_key_name_reads_back(a);
    law_key_name_reads_back(b);
}

/// Two gateways that a table keeps under the same number are the same gateway.
pub proof fn law_mac_keys_are_unique(a: Seq<u8>, b: Seq<u8>)
    requires
        a.len() == 8,
        b.len() == 8,
        mac_key(a) == mac_key(b),
    ensures
        a == b,
{
    vstd::bytes::lemma_auto_spec_u64_to_from_le_bytes();
    assert(vstd::bytes::spec_u64_to_le_bytes(mac_key(a)) == a);
    assert(vstd::bytes::spec_u64_to_le_bytes(mac_key(b)) == b);
}

/// Hexadecimal text has two of the digits 0 to 9 and A to F for each byte, in the order of the
/// bytes, and the two digits are the byte in base sixteen.
pub proof fn law_hex_text_is_each_byte_in_base_sixteen(bytes: Seq<u8>)
    ensures
        hex_text(bytes).len() == 2 * bytes.len(),
        forall|i: int|
            0 <= i < bytes.len() ==> {
                let number = |c: char|
                    if '0' <= c <= '9' {
                        c as int - 48
                    } else {
                        c as int - 55
                    };
                let high = hex_text(bytes)[2 * i];
                let low = hex_text(bytes)[2 * i + 1];
                &&& '0' <= high <= '9' || 'A' <= high <= 'F'
                &&& '0' <= low <= '9' || 'A' <= low <= 'F'
                &&& 16 * number(high) + number(low) == #[trigger] bytes[i]
            },
{
    assert forall|i: int| 0 <= i < bytes.len() implies hex_text(bytes)[2 * i] == hex_digit(
        #[trigger] bytes[i] as int / 16,
    ) && hex_text(bytes)[2 * i + 1] == hex_digit(bytes[i] as int % 16) by {}
}

/// A MAC address is read from sixteen digits 0 to 9, A to F or a to f and from no other text, and
/// each of its octets is two of the digits in base sixteen, the first two for the first octet.
pub proof fn law_mac_text_is_each_octet_in_base_sixteen(text: Seq<char>)
    ensures
        is_mac_text(text) <==> text.len() == 16 && forall|i: int|
            0 <= i < 16 ==> '0' <= #[trigger] text[i] <= '9' || 'A' <= text[i] <= 'F' || 'a'
                <= text[i] <= 'f',
        is_mac_text(text) ==> mac_of_text(text).len() == 8,
        is_mac_text(text) ==> forall|i: int|
            0 <= i < 8 ==> {
                let number = |c: char|
                    if '0' <= c <= '9' {
                        c as int - 48
                    } else if 'A' <= c <= 'F' {
                        c as int - 55
                    } else {
                        c as int - 87
                    };
                #[trigger] mac_of_text(text)[i] == 16 * number(text[2 * i]) + number(
                    text[2 * i + 1],
                )
            },
{
    if is_mac_text(text) {
        assert forall|i: int| 0 <= i < 16 implies '0' <= #[trigger] text[i] <= '9' || 'A' <= text[i]
            <= 'F' || 'a' <= text[i] <= 'f' by {
            assert(hex_value(text[i]) is Some);
        }
        assert forall|i: int| 0 <= i < 8 implies #[trigger] mac_of_text(text)[i] == hex_value(
            text[2 * i],
        )->0 * 16 + hex_value(text[2 * i + 1])->0 by {
            assert(hex_value(text[2 * i]) is Some);
            assert(hex_value(text[2 * i + 1]) is Some);
        }
    }
    if text.len() == 16 && forall|i: int|
        0 <= i < 16 ==> '0' <= #[trigger] text[i] <= '9' || 'A' <= text[i] <= 'F' || 'a' <= text[i]
            <= 'f' {
        assert(is_mac_text(text));
    }
}

/// What is said of a MAC address is said of its octets.
pub proof fn law_mac_is_its_octets(mac: MacAddress)
    ensures
        mac@ == mac.bytes@,
        mac@.len() == 8,
{
}

} // verus!
