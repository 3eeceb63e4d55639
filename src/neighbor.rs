//! The system's neighbor table: hardware addresses to network addresses.
//!
//! A snapshot is text with one neighbor per line; tokens are separated by
//! single spaces. The first token is the network address, and the token after
//! the marker `lladdr` is the hardware address.
use vstd::prelude::*;
use vstd::string::StringExecFns;
use crate::hwaddr::{HwAddr, mac_of_text, parse_hw_addr};
use crate::text::{split_on, split_chars, str_eq, views, lemma_split_on_nonempty};

verus! {

/// An IPv4 address as four octets, or an IPv6 address as eight 16-bit segments.
#[derive(Debug, Clone, Copy, PartialEq, Eq, Hash)]
pub enum NetAddr {
    V4([u8; 4]),
    V6([u16; 8]),
}

impl NetAddr {
    /// Whether the two addresses are the same.
    pub fn same(&self, other: &NetAddr) -> (r: bool)
        ensures
            r == (*self == *other),
    {
        match (self, other) {
            (NetAddr::V4(a), NetAddr::V4(b)) => {
                let r = a[0] == b[0] && a[1] == b[1] && a[2] == b[2] && a[3] == b[3];
                if r {
                    assert(*a =~= *b);
                }
                r
            },
            (NetAddr::V6(a), NetAddr::V6(b)) => {
                let r = a[0] == b[0] && a[1] == b[1] && a[2] == b[2] && a[3] == b[3] && a[4]
                    == b[4] && a[5] == b[5] && a[6] == b[6] && a[7] == b[7];
                if r {
                    assert(*a =~= *b);
                }
                r
            },
            _ => false,
        }
    }

    /// Loopback: 127.0.0.0/8, or `::1`.
    pub open spec fn is_loopback_spec(self) -> bool {
        match self {
            NetAddr::V4(a) => a[0] == 127,
            NetAddr::V6(s) => s@ == seq![0u16, 0, 0, 0, 0, 0, 0, 1],
        }
    }

    /// Multicast: 224.0.0.0/4, or ff00::/8.
    pub open spec fn is_multicast_spec(self) -> bool {
        match self {
            NetAddr::V4(a) => 224 <= a[0] <= 239,
            NetAddr::V6(s) => s[0] >= 0xff00,
        }
    }

    pub fn is_loopback(&self) -> (r: bool)
        ensures
            r == self.is_loopback_spec(),
    {
        match self {
            NetAddr::V4(a) => a[0] == 127,
            NetAddr::V6(s) => {
                let r = s[0] == 0 && s[1] == 0 && s[2] == 0 && s[3] == 0 && s[4] == 0 && s[5] == 0
                    && s[6] == 0 && s[7] == 1;
                assert(r == (s@ =~= seq![0u16, 0, 0, 0, 0, 0, 0, 1]));
                r
            },
        }
    }

    pub fn is_multicast(&self) -> (r: bool)
        ensures
            r == self.is_multicast_spec(),
    {
        match self {
            NetAddr::V4(a) => 224 <= a[0] && a[0] <= 239,
            NetAddr::V6(s) => s[0] >= 0xff00,
        }
    }
}

/// Marker that precedes the hardware address on a line.
pub open spec fn marker() -> Seq<char> {
    seq!['l', 'l', 'a', 'd', 'd', 'r']
}

/// Index of the first marker among the tokens from index `k` on.
pub open spec fn marker_from(t: Seq<Seq<char>>, k: int) -> Option<int>
    decreases t.len() - k,
{
    if k < 0 || k >= t.len() {
        None
    } else if t[k] == marker() {
        Some(k)
    } else {
        marker_from(t, k + 1)
    }
}

/// The address token and the hardware-address token of a line's tokens: the
/// first token, and the one after the first marker past it.
pub open spec fn line_tokens(t: Seq<Seq<char>>) -> Option<(Seq<char>, Seq<char>)> {
    match marker_from(t, 1) {
        Some(k) => if k + 1 < t.len() {
            Some((t[0], t[k + 1]))
        } else {
            None
        },
        None => None,
    }
}

/// One line of a snapshot that names a hardware address: the address token as
/// written, and the hardware address, absent where its token is malformed.
#[derive(Debug, PartialEq, Eq)]
pub struct NeighborRow {
    pub addr_text: String,
    pub hw: Option<HwAddr>,
}

pub open spec fn hw_view(h: Option<HwAddr>) -> Option<Seq<u8>> {
    match h {
        Some(x) => Some(x.octets@),
        None => None,
    }
}

/// The row that a line yields, if any.
pub open spec fn row_of_line(line: Seq<char>) -> Option<(Seq<char>, Option<Seq<u8>>)> {
    match line_tokens(split_on(line, ' ')) {
        Some((a, h)) => Some((a, mac_of_text(h))),
        None => None,
    }
}

/// The rows of the lines, in order, skipping lines without a hardware address.
pub open spec fn rows_of(lines: Seq<Seq<char>>) -> Seq<(Seq<char>, Option<Seq<u8>>)>
    decreases lines.len(),
{
    if lines.len() == 0 {
        Seq::empty()
    } else {
        let rest = rows_of(lines.drop_last());
        match row_of_line(lines.last()) {
            Some(r) => rest.push(r),
            None => rest,
        }
    }
}

pub open spec fn row_views(rows: Seq<NeighborRow>) -> Seq<(Seq<char>, Option<Seq<u8>>)> {
    rows.map_values(|r: NeighborRow| (r.addr_text@, hw_view(r.hw)))
}

fn find_marker(t: &Vec<String>) -> (r: Option<usize>)
    ensures
        match r {
            Some(k) => marker_from(views(t@), 1) == Some(k as int),
            None => marker_from(views(t@), 1).is_none(),
        },
{
    let mark = "lladdr";
    proof {
        reveal_strlit("lladdr");
        assert(mark@ =~= marker());
    }
    let mut k: usize = 1;
    if t.len() == 0 {
        return None;
    }
    while k < t.len()
        invariant
            1 <= k <= t.len(),
            mark@ == marker(),
            marker_from(views(t@), 1) == marker_from(views(t@), k as int),
        decreases t.len() - k,
    {
        let tk = t[k].as_str();
        assert(views(t@)[k as int] == t@[k as int]@);
        if str_eq(tk, mark) {
            return Some(k);
        }
        k = k + 1;
    }
    None
}

/// The row of one line, if the line names a hardware address.
pub fn parse_line(line: &str) -> (r: Option<NeighborRow>)
    ensures
        match row_of_line(line@) {
            Some(v) => r.is_some() && (r.unwrap().addr_text@, hw_view(r.unwrap().hw)) == v,
            None => r.is_none(),
        },
{
    let t = split_chars(line, ' ');
    proof {
        lemma_split_on_nonempty(line@, ' ');
    }
    match find_marker(&t) {
        Some(k) => {
            if k < t.len() - 1 {
                let addr_text = t[0].clone();
                let hw = parse_hw_addr(t[k + 1].as_str());
                assert(views(t@)[0] == t@[0]@);
                assert(views(t@)[k + 1] == t@[k + 1]@);
                Some(NeighborRow { addr_text, hw })
            } else {
                None
            }
        },
        None => None,
    }
}

/// The rows of a snapshot, one per line that names a hardware address, in
/// the order of the lines.
pub fn neighbor_rows(snapshot: &str) -> (r: Vec<NeighborRow>)
    ensures
        row_views(r@) == rows_of(split_on(snapshot@, '\n')),
{
    let lines = split_chars(snapshot, '\n');
    let ghost lv = views(lines@);
    let mut out: Vec<NeighborRow> = Vec::new();
    let mut i: usize = 0;
    while i < lines.len()
        invariant
            i <= lines.len(),
            lv == views(lines@),
            row_views(out@) == rows_of(lv.subrange(0, i as int)),
        decreases lines.len() - i,
    {
        proof {
            assert(lv.subrange(0, i + 1).drop_last() =~= lv.subrange(0, i as int));
        }
        let ghost prev = out@;
        match parse_line(lines[i].as_str()) {
            Some(row) => {
                out.push(row);
                proof {
                    assert(row_views(out@) =~= row_views(prev).push(
                        (row.addr_text@, hw_view(row.hw)),
                    ));
                }
            },
            None => {},
        }
        i = i + 1;
    }
    proof {
        assert(lv.subrange(0, lines.len() as int) =~= lv);
    }
    out
}

/// A row with its address token read as a network address (absent where the
/// token is not one).
#[derive(Debug, Clone, Copy, PartialEq, Eq)]
pub struct NeighborEntry {
    pub addr: Option<NetAddr>,
    pub hw: Option<HwAddr>,
}

/// Why the neighbor table could not answer.
#[derive(Debug, Clone, Copy, PartialEq, Eq, Structural)]
pub enum NeighborError {
    /// A hardware-address token after the marker is not a hardware address.
    MalformedHwAddr,
}

/// Some entry holds a malformed hardware address.
pub open spec fn has_malformed(e: Seq<NeighborEntry>) -> bool {
    exists|i: int| 0 <= i < e.len() && (#[trigger] e[i]).hw.is_none()
}

/// The address of the last entry naming device `m` (later lines supersede
/// earlier ones); absent where no entry names it.
pub open spec fn last_addr_for(e: Seq<NeighborEntry>, m: HwAddr) -> Option<NetAddr>
    decreases e.len(),
{
    if e.len() == 0 {
        None
    } else if e.last().hw == Some(m) {
        e.last().addr
    } else {
        last_addr_for(e.drop_last(), m)
    }
}

/// The hardware-address field of the first entry at or after index `k` whose
/// address is `a`; absent where there is none.
pub open spec fn first_hw_for(e: Seq<NeighborEntry>, a: NetAddr, k: int) -> Option<Option<HwAddr>>
    decreases e.len() - k,
{
    if k < 0 || k >= e.len() {
        None
    } else if e[k].addr == Some(a) {
        Some(e[k].hw)
    } else {
        first_hw_for(e, a, k + 1)
    }
}

fn find_malformed(entries: &Vec<NeighborEntry>) -> (r: bool)
    ensures
        r == has_malformed(entries@),
{
    let mut i: usize = 0;
    while i < entries.len()
        invariant
            i <= entries.len(),
            forall|j: int| 0 <= j < i ==> (#[trigger] entries@[j]).hw.is_some(),
        decreases entries.len() - i,
    {
        if entries[i].hw.is_none() {
            return true;
        }
        i = i + 1;
    }
    false
}

/// The address that the entries give device `m`.
pub fn lookup_addr(entries: &Vec<NeighborEntry>, m: &HwAddr) -> (r: Option<NetAddr>)
    ensures
        r == last_addr_for(entries@, *m),
{
    let mut j: usize = entries.len();
    assert(entries@.subrange(0, j as int) =~= entries@);
    while j > 0
        invariant
            j <= entries.len(),
            last_addr_for(entries@, *m) == last_addr_for(entries@.subrange(0, j as int), *m),
        decreases j,
    {
        let e = entries[j - 1];
        proof {
            assert(entries@.subrange(0, j as int).drop_last() =~= entries@.subrange(0, j - 1));
        }
        match e.hw {
            Some(h) => {
                if h.same(m) {
                    return e.addr;
                }
            },
            None => {},
        }
        j = j - 1;
    }
    None
}

/// Resolves each requested device to the address that the table gives it, one
/// entry per request in order; fails where any hardware-address token of the
/// table is malformed.
pub fn macs_to_addrs(requested: &Vec<HwAddr>, entries: &Vec<NeighborEntry>) -> (r: Result<
    Vec<(HwAddr, Option<NetAddr>)>,
    NeighborError,
>)
    ensures
        match r {
            Ok(v) => !has_malformed(entries@) && v.len() == requested.len() && forall|i: int|
                0 <= i < v.len() ==> #[trigger] v@[i] == (requested@[i], last_addr_for(
                    entries@,
                    requested@[i],
                )),
            Err(e) => has_malformed(entries@) && e == NeighborError::MalformedHwAddr,
        },
{
    if find_malformed(entries) {
        return Err(NeighborError::MalformedHwAddr);
    }
    let mut out: Vec<(HwAddr, Option<NetAddr>)> = Vec::new();
    let mut i: usize = 0;
    while i < requested.len()
        invariant
            i <= requested.len(),
            out.len() == i,
            forall|k: int|
                0 <= k < i ==> #[trigger] out@[k] == (requested@[k], last_addr_for(
                    entries@,
                    requested@[k],
                )),
        decreases requested.len() - i,
    {
        let m = requested[i];
        let a = lookup_addr(entries, &m);
        out.push((m, a));
        i = i + 1;
    }
    Ok(out)
}

/// The device that the table names for network address `addr`: none for
/// loopback and multicast addresses, else the hardware address on the first
/// line with that address; fails where that hardware address is malformed.
pub fn addr_to_mac(addr: &NetAddr, entries: &Vec<NeighborEntry>) -> (r: Result<
    Option<HwAddr>,
    NeighborError,
>)
    ensures
        r == (if addr.is_loopback_spec() || addr.is_multicast_spec() {
            Ok(None)
        } else {
            match first_hw_for(entries@, *addr, 0) {
                None => Ok(None),
                Some(None) => Err(NeighborError::MalformedHwAddr),
                Some(Some(h)) => Ok(Some(h)),
            }
        }),
{
    if addr.is_loopback() || addr.is_multicast() {
        return Ok(None);
    }
    let mut k: usize = 0;
    while k < entries.len()
        invariant
            k <= entries.len(),
            !(addr.is_loopback_spec() || addr.is_multicast_spec()),
            first_hw_for(entries@, *addr, 0) == first_hw_for(entries@, *addr, k as int),
        decreases entries.len() - k,
    {
        let e = entries[k];
        match e.addr {
            Some(a) => {
                if a.same(addr) {
                    assert(first_hw_for(entries@, *addr, k as int) == Some(e.hw));
                    return match e.hw {
                        None => Err(NeighborError::MalformedHwAddr),
                        Some(h) => Ok(Some(h)),
                    };
                }
            },
            None => {},
        }
        k = k + 1;
    }
    Ok(None)
}

} // verus!
