//! What is sent to wake a device: a magic packet to a broadcast address.
use vstd::prelude::*;
use crate::hwaddr::HwAddr;
use crate::neighbor::NetAddr;

verus! {

/// The well-known port that wake packets are sent to.
pub const WAKE_PORT: u16 = 9;

/// Milliseconds between two sends.
pub const WAKE_PACING_MILLIS: u64 = 10;

/// `s` repeated `n` times.
pub open spec fn repeat(s: Seq<u8>, n: nat) -> Seq<u8>
    decreases n,
{
    if n == 0 {
        Seq::empty()
    } else {
        repeat(s, (n - 1) as nat) + s
    }
}

/// A wake payload: six `0xFF` bytes, then the address sixteen times.
pub open spec fn magic_payload(mac: Seq<u8>) -> Seq<u8> {
    Seq::new(6, |i: int| 0xffu8) + repeat(mac, 16)
}

/// Relies on `wake_on_lan::MagicPacket::new` and `magic_bytes`, which give six
/// repetitions of `0xFF` followed by sixteen repetitions of the address.
#[verifier::external_body]
fn magic_packet(mac: &HwAddr) -> (r: Vec<u8>)
    ensures
        r@ == magic_payload(mac.octets@),
{
    wake_on_lan::MagicPacket::new(&mac.octets).magic_bytes().to_vec()
}

/// The broadcast destination for a device: the /24 broadcast of its IPv4
/// address, or the global broadcast address otherwise.
pub open spec fn broadcast_of(addr: Option<NetAddr>) -> Seq<u8> {
    match addr {
        Some(NetAddr::V4(a)) => seq![a[0], a[1], a[2], 255u8],
        _ => seq![255u8, 255, 255, 255],
    }
}

pub fn addr_to_broadcast(addr: &Option<NetAddr>) -> (r: [u8; 4])
    ensures
        r@ == broadcast_of(*addr),
{
    let r: [u8; 4] = match addr {
        Some(NetAddr::V4(a)) => [a[0], a[1], a[2], 255],
        _ => [255, 255, 255, 255],
    };
    assert(r@ =~= broadcast_of(*addr));
    r
}

/// The address that a resolution gives device `m`: that of its first pair,
/// absent where no pair names it.
pub open spec fn mapped_addr(mapping: Seq<(HwAddr, Option<NetAddr>)>, m: HwAddr) -> Option<NetAddr>
    decreases mapping.len(),
{
    if mapping.len() == 0 {
        None
    } else if mapping[0].0 == m {
        mapping[0].1
    } else {
        mapped_addr(mapping.drop_first(), m)
    }
}

pub fn mapping_addr(mapping: &Vec<(HwAddr, Option<NetAddr>)>, m: &HwAddr) -> (r: Option<NetAddr>)
    ensures
        r == mapped_addr(mapping@, *m),
{
    let mut i: usize = 0;
    assert(mapping@.subrange(0, mapping.len() as int) =~= mapping@);
    while i < mapping.len()
        invariant
            i <= mapping.len(),
            mapped_addr(mapping@, *m) == mapped_addr(mapping@.subrange(i as int, mapping.len() as int), *m),
        decreases mapping.len() - i,
    {
        proof {
            let rest = mapping@.subrange(i as int, mapping.len() as int);
            assert(rest.drop_first() =~= mapping@.subrange(i + 1, mapping.len() as int));
            assert(rest[0] == mapping@[i as int]);
        }
        if mapping[i].0.same(m) {
            return mapping[i].1;
        }
        i = i + 1;
    }
    None
}

/// One datagram to send: a payload to an IPv4 destination and port.
#[derive(Debug, PartialEq, Eq)]
pub struct WakeDatagram {
    pub target: HwAddr,
    pub payload: Vec<u8>,
    pub dest: [u8; 4],
    pub port: u16,
}

/// The datagrams that wake the targets, one per target in order, each to the
/// broadcast destination of the target's resolved address.
pub fn wake_macs(targets: &Vec<HwAddr>, resolved: &Vec<(HwAddr, Option<NetAddr>)>) -> (r: Vec<WakeDatagram>)
    ensures
        r.len() == targets.len(),
        forall|i: int|
            0 <= i < r.len() ==> {
                &&& (#[trigger] r@[i]).target == targets@[i]
                &&& r@[i].payload@ == magic_payload(targets@[i].octets@)
                &&& r@[i].dest@ == broadcast_of(mapped_addr(resolved@, targets@[i]))
                &&& r@[i].port == WAKE_PORT
            },
{
    let mut out: Vec<WakeDatagram> = Vec::new();
    let mut i: usize = 0;
    while i < targets.len()
        invariant
            i <= targets.len(),
            out.len() == i,
            forall|k: int|
                0 <= k < i ==> {
                    &&& (#[trigger] out@[k]).target == targets@[k]
                    &&& out@[k].payload@ == magic_payload(targets@[k].octets@)
                    &&& out@[k].dest@ == broadcast_of(mapped_addr(resolved@, targets@[k]))
                    &&& out@[k].port == WAKE_PORT
                },
        decreases targets.len() - i,
    {
        let m = targets[i];
        let addr = mapping_addr(resolved, &m);
        let dest = addr_to_broadcast(&addr);
        let payload = magic_packet(&m);
        out.push(WakeDatagram { target: m, payload, dest, port: WAKE_PORT });
        i = i + 1;
    }
    out
}

} // verus!
