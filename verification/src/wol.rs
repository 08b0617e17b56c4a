//! Wake-on-LAN: parsing a textual MAC address and building the magic
//! packet for it.  A valid address is six groups of exactly two
//! hexadecimal digits separated by colons; the packet is six bytes of
//! 0xff followed by the six address bytes repeated sixteen times.
//! Broadcasting the packet is the caller's concern.

use vstd::prelude::*;

verus! {

broadcast use vstd::array::group_array_axioms;

/// Whether a character is a hexadecimal digit, either case.
pub open spec fn is_hex_digit(c: char) -> bool {
    c == '0' || c == '1' || c == '2' || c == '3' || c == '4' || c == '5' || c == '6' || c == '7'
        || c == '8' || c == '9' || c == 'a' || c == 'b' || c == 'c' || c == 'd' || c == 'e' || c
        == 'f' || c == 'A' || c == 'B' || c == 'C' || c == 'D' || c == 'E' || c == 'F'
}

/// The value of a hexadecimal digit (zero on anything else).
pub open spec fn hex_val(c: char) -> nat {
    if c == '0' {
        0
    } else if c == '1' {
        1
    } else if c == '2' {
        2
    } else if c == '3' {
        3
    } else if c == '4' {
        4
    } else if c == '5' {
        5
    } else if c == '6' {
        6
    } else if c == '7' {
        7
    } else if c == '8' {
        8
    } else if c == '9' {
        9
    } else if c == 'a' || c == 'A' {
        10
    } else if c == 'b' || c == 'B' {
        11
    } else if c == 'c' || c == 'C' {
        12
    } else if c == 'd' || c == 'D' {
        13
    } else if c == 'e' || c == 'E' {
        14
    } else if c == 'f' || c == 'F' {
        15
    } else {
        0
    }
}

/// The k-th two-digit group of a MAC address holds hexadecimal digits.
pub open spec fn group_ok(s: Seq<char>, k: int) -> bool {
    is_hex_digit(s[3 * k]) && is_hex_digit(s[3 * k + 1])
}

/// The separator before the k-th group is a colon.
pub open spec fn sep_ok(s: Seq<char>, k: int) -> bool {
    s[3 * k - 1] == ':'
}

/// A valid textual MAC address: six two-digit hexadecimal groups
/// separated by single colons, seventeen characters in all.
pub open spec fn is_valid_mac(s: Seq<char>) -> bool {
    &&& s.len() == 17
    &&& forall|k: int| 0 <= k < 6 ==> #[trigger] group_ok(s, k)
    &&& forall|k: int| 1 <= k < 6 ==> #[trigger] sep_ok(s, k)
}

/// The value of the k-th address byte of a valid MAC address.
pub open spec fn mac_byte(s: Seq<char>, k: int) -> nat {
    16 * hex_val(s[3 * k]) + hex_val(s[3 * k + 1])
}

/// The six address bytes of a valid MAC address.
pub open spec fn mac_bytes_of(s: Seq<char>) -> Seq<u8> {
    Seq::new(6, |k: int| mac_byte(s, k) as u8)
}

/// The magic packet for six address bytes: six bytes of 0xff, then the
/// address repeated sixteen times.
pub open spec fn is_magic_packet(p: Seq<u8>, address: Seq<u8>) -> bool {
    &&& p.len() == 102
    &&& forall|i: int|
        0 <= i < 102 ==> #[trigger] p[i] == (if i < 6 {
            0xffu8
        } else {
            address[(i - 6) % 6]
        })
}

/// The value of one hexadecimal digit character.
fn hex_digit_value(c: char) -> (r: Option<u8>)
    ensures
        r is Some <==> is_hex_digit(c),
        r matches Some(v) ==> v as nat == hex_val(c) && v < 16,
{
    match c {
        '0' => Some(0),
        '1' => Some(1),
        '2' => Some(2),
        '3' => Some(3),
        '4' => Some(4),
        '5' => Some(5),
        '6' => Some(6),
        '7' => Some(7),
        '8' => Some(8),
        '9' => Some(9),
        'a' | 'A' => Some(10),
        'b' | 'B' => Some(11),
        'c' | 'C' => Some(12),
        'd' | 'D' => Some(13),
        'e' | 'E' => Some(14),
        'f' | 'F' => Some(15),
        _ => None,
    }
}

/// Decodes the leading two-digit hexadecimal byte of a string: the
/// value of the first two characters whenever both are hexadecimal
/// digits, ignoring whatever follows them; anything shorter or
/// non-hexadecimal there yields nothing.
pub fn decode_hex(hex_string: &str) -> (r: Option<u8>)
    ensures
        r is Some <==> hex_string@.len() >= 2 && is_hex_digit(hex_string@[0]) && is_hex_digit(
            hex_string@[1],
        ),
        r matches Some(b) ==> b as nat == 16 * hex_val(hex_string@[0]) + hex_val(hex_string@[1]),
{
    let n = hex_string.unicode_len();
    if n < 2 {
        return None;
    }
    let hi = hex_digit_value(hex_string.get_char(0));
    let lo = hex_digit_value(hex_string.get_char(1));
    match (hi, lo) {
        (Some(h), Some(l)) => Some(16 * h + l),
        _ => None,
    }
}

/// Parses a textual MAC address into its six bytes.  Succeeds exactly
/// on valid addresses and reports every other input as invalid, with
/// the bytes of a valid address pinned group by group.
pub fn mac_to_array(mac_address: &str) -> (r: Result<[u8; 6], String>)
    ensures
        r is Ok <==> is_valid_mac(mac_address@),
        r matches Ok(a) ==> forall|k: int| 0 <= k < 6 ==> #[trigger] a@[k] as nat == mac_byte(
            mac_address@,
            k,
        ),
        r matches Err(m) ==> m@ == "The given MAC address is not valid"@,
{
    let n = mac_address.unicode_len();
    if n != 17 {
        return Err(String::from_str("The given MAC address is not valid"));
    }
    let mut bytes: [u8; 6] = [0; 6];
    let mut k: usize = 0;
    while k < 6
        invariant
            k <= 6,
            mac_address@.len() == 17,
            bytes@.len() == 6,
            forall|j: int| 0 <= j < k ==> #[trigger] group_ok(mac_address@, j),
            forall|j: int| 1 <= j < k ==> #[trigger] sep_ok(mac_address@, j),
            forall|j: int| 0 <= j < k ==> #[trigger] bytes@[j] as nat == mac_byte(mac_address@, j),
        decreases 6 - k,
    {
        if k > 0 {
            let sep = mac_address.get_char(3 * k - 1);
            if sep != ':' {
                proof {
                    assert(!sep_ok(mac_address@, k as int));
                }
                return Err(String::from_str("The given MAC address is not valid"));
            }
        }
        let hi = hex_digit_value(mac_address.get_char(3 * k));
        let lo = hex_digit_value(mac_address.get_char(3 * k + 1));
        match (hi, lo) {
            (Some(h), Some(l)) => {
                bytes[k] = 16 * h + l;
            },
            _ => {
                proof {
                    assert(!group_ok(mac_address@, k as int));
                }
                return Err(String::from_str("The given MAC address is not valid"));
            },
        }
        k = k + 1;
    }
    Ok(bytes)
}

/// Builds the magic packet for six address bytes: six 0xff bytes, then
/// the address repeated sixteen times.  Never fails; the result type
/// mirrors the parsing step so callers treat both stages alike.
pub fn build_magic_packet(address_array: [u8; 6]) -> (r: Result<[u8; 102], String>)
    ensures
        r is Ok,
        r matches Ok(p) ==> is_magic_packet(p@, address_array@),
{
    let mut packet: [u8; 102] = [0; 102];
    let mut i: usize = 0;
    while i < 6
        invariant
            i <= 6,
            packet@.len() == 102,
            forall|m: int| 0 <= m < i ==> #[trigger] packet@[m] == 0xffu8,
        decreases 6 - i,
    {
        packet[i] = 0xff;
        i = i + 1;
    }
    let mut rep: usize = 0;
    while rep < 16
        invariant
            rep <= 16,
            packet@.len() == 102,
            forall|m: int| 0 <= m < 6 ==> #[trigger] packet@[m] == 0xffu8,
            forall|m: int|
                6 <= m < 6 + 6 * rep ==> #[trigger] packet@[m] == address_array@[(m - 6) % 6],
        decreases 16 - rep,
    {
        let mut j: usize = 0;
        while j < 6
            invariant
                j <= 6,
                rep < 16,
                packet@.len() == 102,
                forall|m: int| 0 <= m < 6 ==> #[trigger] packet@[m] == 0xffu8,
                forall|m: int|
                    6 <= m < 6 + 6 * rep + j ==> #[trigger] packet@[m] == address_array@[(m - 6)
                        % 6],
            decreases 6 - j,
        {
            let idx: usize = 6 + 6 * rep + j;
            packet[idx] = address_array[j];
            proof {
                assert((6 * (rep as int) + j as int) % 6 == j as int) by (nonlinear_arith)
                    requires
                        0 <= j < 6,
                        0 <= rep,
                ;
            }
            j = j + 1;
        }
        rep = rep + 1;
    }
    Ok(packet)
}

/// Computes the wake-on-LAN magic packet for a textual MAC address,
/// rejecting every invalid address.  The caller broadcasts the packet.
pub fn wake_on_lan(mac_address: &str) -> (r: Result<[u8; 102], String>)
    ensures
        r is Ok <==> is_valid_mac(mac_address@),
        r matches Ok(p) ==> is_magic_packet(p@, mac_bytes_of(mac_address@)),
        r matches Err(m) ==> m@ == "The given MAC address is not valid"@,
{
    let address_array = match mac_to_array(mac_address) {
        Ok(a) => a,
        Err(m) => {
            return Err(m);
        },
    };
    proof {
        assert(address_array@ =~= mac_bytes_of(mac_address@));
    }
    match build_magic_packet(address_array) {
        Ok(p) => Ok(p),
        Err(m) => Err(m),
    }
}

} // verus!
