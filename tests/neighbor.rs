use informant::hwaddr::{hw_addr_text, parse_hw_addr, HwAddr};
use informant::liveness::{awake_macs, sleeping_macs, ProbeOutcome};
use informant::neighbor::{
    addr_to_mac, macs_to_addrs, neighbor_rows, parse_line, NeighborEntry, NeighborError, NetAddr,
};
use informant::wake::addr_to_broadcast;

fn mac(s: &str) -> HwAddr {
    parse_hw_addr(s).unwrap()
}

fn v4(a: u8, b: u8, c: u8, d: u8) -> NetAddr {
    NetAddr::V4([a, b, c, d])
}

// Reads dotted IPv4 text and IPv6 text of eight groups; anything else is no address.
fn ip(s: &str) -> Option<NetAddr> {
    if s.contains(':') {
        let groups: Vec<&str> = s.split(':').collect();
        if groups.len() != 8 {
            return None;
        }
        let mut out = [0u16; 8];
        for (i, g) in groups.iter().enumerate() {
            out[i] = u16::from_str_radix(g, 16).ok()?;
        }
        Some(NetAddr::V6(out))
    } else {
        let parts: Vec<&str> = s.split('.').collect();
        if parts.len() != 4 {
            return None;
        }
        let mut out = [0u8; 4];
        for (i, p) in parts.iter().enumerate() {
            out[i] = p.parse().ok()?;
        }
        Some(NetAddr::V4(out))
    }
}

fn entries(snapshot: &str) -> Vec<NeighborEntry> {
    neighbor_rows(snapshot)
        .into_iter()
        .map(|r| NeighborEntry { addr: ip(&r.addr_text), hw: r.hw })
        .collect()
}

fn resolved(r: &[(HwAddr, Option<NetAddr>)], m: HwAddr) -> Option<Option<NetAddr>> {
    r.iter().find(|(x, _)| *x == m).map(|(_, a)| *a)
}

#[test]
fn test_ip_to_mac() {
    let bad_sample = entries(
        r#"
192.168.178.10 dev enp4s0 lladdr 12:34:56:78:9a:bb REACHABLE
192.168.178.1 dev enp4s0 lladdr 12:34:56:78:9a:xx REACHABLE
        "#,
    );
    assert!(addr_to_mac(&v4(192, 168, 178, 1), &bad_sample).is_err());
    let sample = entries(
        r#"
192.168.178.26 dev enp4s0 lladdr 12:34:56:78:9a:bc REACHABLE
192.168.178.1 dev enp4s0 lladdr 44:55:66:77:88:99 REACHABLE
fe80::abcd:abcd:abcd:abcd dev enp4s0 lladdr 44:4e:6d:c2:37:4b router DELAY
2a04:4540:4540:4540:4540:4540:4540:4540 dev enp4s0 lladdr 11:22:33:44:55:66 router REACHABLE
        "#,
    );
    assert!(addr_to_mac(&v4(192, 168, 178, 55), &sample).unwrap().is_none());
    assert_eq!(
        hw_addr_text(&addr_to_mac(&v4(192, 168, 178, 26), &sample).unwrap().unwrap()),
        "12:34:56:78:9A:BC"
    );
    assert_eq!(
        hw_addr_text(
            &addr_to_mac(&ip("2a04:4540:4540:4540:4540:4540:4540:4540").unwrap(), &sample)
                .unwrap()
                .unwrap()
        ),
        "11:22:33:44:55:66"
    );
}

#[test]
fn test_macs_to_ips() {
    let bad_sample = entries(
        r#"
192.168.178.2 dev enp4s0 lladdr 11:11:11:11:11:11 REACHABLE
192.168.178.1 dev enp4s0 lladdr 12:34:xx:xx:9a:bc REACHABLE
        "#,
    );
    let macs: Vec<HwAddr> = [
        "11:11:11:11:11:11",
        "12:34:56:78:9a:bc",
        "44:55:66:77:88:99",
        "11:22:33:44:55:66",
    ]
    .into_iter()
    .map(mac)
    .collect();
    // invalid mac
    assert_eq!(macs_to_addrs(&macs, &bad_sample), Err(NeighborError::MalformedHwAddr));
    let sample = entries(
        r#"
192.168.178.2 dev enp4s0 lladdr 22:22:22:22:22:22 REACHABLE
192.168.178.x dev enp4s0 lladdr 11:11:11:11:11:11 REACHABLE
192.168.178.26 dev enp4s0 lladdr 12:34:56:78:9a:bc REACHABLE
192.168.178.1 dev enp4s0 lladdr 44:55:66:77:88:99 REACHABLE
fe80::abcd:abcd:abcd:abcd dev enp4s0 lladdr 44:4e:6d:c2:37:4b router DELAY
2a04:4540:4540:4540:4540:4540:4540:4540 dev enp4s0 lladdr 11:22:33:44:55:66 router REACHABLE
        "#,
    );
    let r = macs_to_addrs(&macs, &sample).unwrap();
    assert_eq!(r.len(), 4);
    assert!(
        resolved(&r, mac("22:22:22:22:22:22")).is_none(),
        "should map non-searched ips to None"
    );
    assert!(
        resolved(&r, mac("11:11:11:11:11:11")).unwrap().is_none(),
        "should map invalid ip to None"
    );
    for (m, expected_ip) in [
        ("12:34:56:78:9a:bc", "192.168.178.26"),
        ("44:55:66:77:88:99", "192.168.178.1"),
        ("11:22:33:44:55:66", "2a04:4540:4540:4540:4540:4540:4540:4540"),
    ] {
        assert_eq!(
            resolved(&r, mac(m)).unwrap(),
            ip(expected_ip),
            "should map ip of searched mac to Some(expected_ip)"
        );
    }
}

#[test]
fn test_awake_macs() {
    let awake_ip = v4(192, 168, 178, 22);
    let sleep_ip = v4(192, 168, 178, 23);
    let sleep_ip2 = ip("fe80:0:0:0:abcd:abcd:abcd:abcd").unwrap();
    let failing_ip = v4(224, 254, 0, 0);
    let awake_mac = mac("12:34:56:78:9a:bc");
    let none_mac_mapping = vec![(awake_mac, None)];
    assert_eq!(
        awake_macs(&none_mac_mapping, &vec![ProbeOutcome::NotProbed]),
        none_mac_mapping,
        "should leave None values in mapping"
    );
    let sleep_mac2 = mac("23:23:23:23:23:23");
    let failing_mac = mac("33:33:33:33:33:33");
    let other_mac = mac("22:22:22:22:22:22");
    // the sleeping device has the same address as the awake one: of the two
    // pairs for it, the later one, with the silent address, is kept
    let mapping = vec![
        (awake_mac, Some(sleep_ip)),
        (sleep_mac2, Some(sleep_ip2)),
        (other_mac, None),
        (failing_mac, Some(failing_ip)),
    ];
    let probes = vec![
        ProbeOutcome::NoReply,
        ProbeOutcome::NoReply,
        ProbeOutcome::NotProbed,
        ProbeOutcome::Failed,
    ];
    let expected = vec![(awake_mac, None), (sleep_mac2, None), (other_mac, None), (failing_mac, None)];
    assert_eq!(awake_macs(&mapping, &probes), expected, "should set all ips of sleeping macs to None");
    let answered = vec![(awake_mac, Some(awake_ip))];
    assert_eq!(awake_macs(&answered, &vec![ProbeOutcome::Replied]), answered);
}

#[test]
fn test_addr_to_broadcast() {
    assert_eq!(addr_to_broadcast(&None), [255, 255, 255, 255]);
    assert_eq!(
        addr_to_broadcast(&ip("fe80:0:0:0:abcd:abcd:abcd:abcd")),
        [255, 255, 255, 255]
    );
    assert_eq!(addr_to_broadcast(&Some(v4(192, 168, 178, 23))), [192, 168, 178, 255]);
    assert_eq!(addr_to_broadcast(&Some(v4(192, 168, 122, 55))), [192, 168, 122, 255]);
}

#[test]
fn unresolved_and_unanswered_devices_are_asleep() {
    let a = mac("01:01:01:01:01:01");
    let b = mac("02:02:02:02:02:02");
    let c = mac("03:03:03:03:03:03");
    let d = mac("04:04:04:04:04:04");
    let mapping = vec![
        (a, None),
        (b, Some(v4(10, 0, 0, 2))),
        (c, Some(v4(10, 0, 0, 3))),
        (d, Some(v4(10, 0, 0, 4))),
    ];
    // a probe that answers does not make an unresolved device awake
    let probes = vec![
        ProbeOutcome::Replied,
        ProbeOutcome::Replied,
        ProbeOutcome::NoReply,
        ProbeOutcome::Failed,
    ];
    assert_eq!(sleeping_macs(&mapping, &probes), vec![a, c, d]);
}

#[test]
fn later_lines_supersede_earlier_ones() {
    let m = mac("aa:bb:cc:dd:ee:ff");
    let e = entries(
        "10.0.0.1 dev eth0 lladdr aa:bb:cc:dd:ee:ff STALE\n10.0.0.9 dev eth0 lladdr AA-BB-CC-DD-EE-FF REACHABLE",
    );
    let r = macs_to_addrs(&vec![m], &e).unwrap();
    assert_eq!(r, vec![(m, Some(v4(10, 0, 0, 9)))]);
    // reverse lookup takes the first line with the address
    assert_eq!(addr_to_mac(&v4(10, 0, 0, 1), &e), Ok(Some(m)));
}

#[test]
fn requested_device_missing_from_table_is_unresolved() {
    let m = mac("aa:aa:aa:aa:aa:aa");
    let r = macs_to_addrs(&vec![m], &entries("10.0.0.1 dev eth0 lladdr 01:02:03:04:05:06 REACHABLE"))
        .unwrap();
    assert_eq!(r, vec![(m, None)]);
}

#[test]
fn lines_without_marker_are_skipped() {
    assert!(parse_line("").is_none());
    assert!(parse_line("10.0.0.7 dev eth0 FAILED").is_none());
    assert!(parse_line("10.0.0.7 dev eth0 lladdr").is_none());
    assert!(parse_line("lladdr 01:02:03:04:05:06").is_none());
    let row = parse_line("10.0.0.7 dev eth0 lladdr 01:02:03:04:05:06 REACHABLE").unwrap();
    assert_eq!(row.addr_text, "10.0.0.7");
    assert_eq!(row.hw, Some(HwAddr { octets: [1, 2, 3, 4, 5, 6] }));
    let bad = parse_line("10.0.0.7 dev eth0 lladdr zz:02:03:04:05:06").unwrap();
    assert_eq!(bad.hw, None);
    assert_eq!(neighbor_rows("a lladdr 01:02:03:04:05:06\n\nb x\nc lladdr 0a:0b:0c:0d:0e:0f").len(), 2);
}

#[test]
fn loopback_and_multicast_have_no_device() {
    let e = entries("127.0.0.1 dev lo lladdr 01:02:03:04:05:06\n224.0.0.1 dev eth0 lladdr 01:02:03:04:05:07");
    assert_eq!(addr_to_mac(&v4(127, 0, 0, 1), &e), Ok(None));
    assert_eq!(addr_to_mac(&v4(224, 0, 0, 1), &e), Ok(None));
    assert_eq!(addr_to_mac(&NetAddr::V6([0, 0, 0, 0, 0, 0, 0, 1]), &e), Ok(None));
    assert_eq!(addr_to_mac(&NetAddr::V6([0xff02, 0, 0, 0, 0, 0, 0, 1]), &e), Ok(None));
}

#[test]
fn hardware_address_text() {
    assert_eq!(parse_hw_addr("80:fa:5b:41:10:6b"), Some(HwAddr { octets: [128, 250, 91, 65, 16, 107] }));
    assert_eq!(parse_hw_addr("80:FA:5B:41:10:6B"), parse_hw_addr("80:fa:5b:41:10:6b"));
    assert_eq!(parse_hw_addr("not a mac"), None);
    assert_eq!(hw_addr_text(&HwAddr { octets: [0, 1, 10, 171, 205, 255] }), "00:01:0A:AB:CD:FF");
}
