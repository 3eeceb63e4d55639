//! Link-layer (MAC) addresses.
use vstd::prelude::*;

verus! {

/// A 48-bit hardware address, as its six octets in transmission order.
#[derive(Debug, Clone, Copy, PartialEq, Eq, Hash, PartialOrd, Ord)]
pub struct HwAddr {
    pub octets: [u8; 6],
}

impl HwAddr {
    /// Whether the two addresses are the same.
    pub fn same(&self, other: &HwAddr) -> (r: bool)
        ensures
            r == (*self == *other),
    {
        let r = self.octets[0] == other.octets[0] && self.octets[1] == other.octets[1]
            && self.octets[2] == other.octets[2] && self.octets[3] == other.octets[3]
            && self.octets[4] == other.octets[4] && self.octets[5] == other.octets[5];
        if r {
            assert(self.octets =~= other.octets);
        }
        r
    }
}

/// What `mac_address` makes of a text: the six octets, or nothing where the
/// text is not a hardware address in one of the forms it accepts.
pub uninterp spec fn mac_of_text(s: Seq<char>) -> Option<Seq<u8>>;

/// Relies on `<mac_address::MacAddress as FromStr>::from_str`, which gives the
/// six octets of an address written as hex digits, or an error.
#[verifier::external_body]
fn mac_from_text(s: &str) -> (r: Option<HwAddr>)
    ensures
        match r {
            Some(h) => mac_of_text(s@) == Some(h.octets@),
            None => mac_of_text(s@).is_none(),
        },
{
    match s.parse::<mac_address::MacAddress>() {
        Ok(m) => Some(HwAddr { octets: m.bytes() }),
        Err(_) => None,
    }
}

/// An uppercase hex digit.
pub open spec fn hex_digit(n: u8) -> char {
    if n < 10 {
        ('0' as u8 + n) as char
    } else {
        ('A' as u8 + n - 10) as char
    }
}

/// Two uppercase hex digits of a byte.
pub open spec fn hex2(b: u8) -> Seq<char> {
    seq![hex_digit(b / 16), hex_digit(b % 16)]
}

/// The canonical text of an address: six pairs of uppercase hex digits
/// separated by colons.
pub open spec fn mac_display(o: Seq<u8>) -> Seq<char> {
    hex2(o[0]) + seq![':'] + hex2(o[1]) + seq![':'] + hex2(o[2]) + seq![':'] + hex2(o[3]) + seq![':']
        + hex2(o[4]) + seq![':'] + hex2(o[5])
}

/// Relies on `<mac_address::MacAddress as Display>::fmt`, which writes each
/// octet as two uppercase hex digits, separated by colons.
#[verifier::external_body]
fn mac_text(h: &HwAddr) -> (r: String)
    ensures
        r@ == mac_display(h.octets@),
{
    mac_address::MacAddress::new(h.octets).to_string()
}

/// Reads a hardware address: six octets as hex digits, case-insensitive,
/// separated by colons or hyphens, or not separated.
pub fn parse_hw_addr(s: &str) -> (r: Option<HwAddr>)
    ensures
        match r {
            Some(h) => mac_of_text(s@) == Some(h.octets@),
            None => mac_of_text(s@).is_none(),
        },
{
    mac_from_text(s)
}

/// The canonical text of an address, in uppercase.
pub fn hw_addr_text(h: &HwAddr) -> (r: String)
    ensures
        r@ == mac_display(h.octets@),
{
    mac_text(h)
}

} // verus!
