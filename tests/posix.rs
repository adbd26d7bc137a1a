use ipv4_interfaces::address::{from_be_octets, is_link_local_addr, SockAddr};
use ipv4_interfaces::linux::{interfaces_from, to_interface, IfAddrRecord, Ipv4Interface};

const IFF_UP: u32 = 0x1;
const IFF_LOOPBACK: u32 = 0x8;
const IFF_LOWER_UP: u32 = 0x1_0000;

fn record(name: &str, flags: u32, family: u16, octets: [u8; 4]) -> IfAddrRecord {
    IfAddrRecord {
        name: name.as_bytes().to_vec(),
        flags,
        addr: Some(SockAddr { family, octets }),
    }
}

#[test]
fn loopback_record_becomes_loopback_interface() {
    let recs = vec![record("lo", IFF_UP | IFF_LOOPBACK | IFF_LOWER_UP, 2, [127, 0, 0, 1])];
    let out = interfaces_from(&recs);
    assert_eq!(out.len(), 1);
    assert_eq!(out[0].name, "lo");
    assert_eq!(out[0].ip, 0x7F00_0001);
    assert!(out[0].is_loopback());
    assert!(!out[0].is_link_local());
}

#[test]
fn foreign_family_record_is_excluded() {
    let recs = vec![
        record("eth0", IFF_UP | IFF_LOWER_UP, 10, [192, 168, 1, 5]),
        record("lo", IFF_LOOPBACK, 17, [127, 0, 0, 1]),
        IfAddrRecord { name: b"tun0".to_vec(), flags: IFF_UP, addr: None },
    ];
    assert!(interfaces_from(&recs).is_empty());
    assert!(to_interface(&recs[0]).is_none());
}

#[test]
fn empty_collection_gives_no_interfaces() {
    let recs: Vec<IfAddrRecord> = Vec::new();
    assert!(interfaces_from(&recs).is_empty());
}

#[test]
fn order_of_records_is_kept() {
    let recs = vec![
        record("lo", IFF_LOOPBACK, 2, [127, 0, 0, 1]),
        record("eth0", IFF_UP, 10, [0, 0, 0, 0]),
        record("eth0", IFF_UP | IFF_LOWER_UP, 2, [192, 168, 1, 5]),
        record("wlan0", IFF_UP, 2, [169, 254, 3, 4]),
    ];
    let out = interfaces_from(&recs);
    let names: Vec<&str> = out.iter().map(|i| i.name.as_str()).collect();
    assert_eq!(names, vec!["lo", "eth0", "wlan0"]);
    assert_eq!(out[1].ip, 0xC0A8_0105);
    assert_eq!(out[2].ip, 0xA9FE_0304);
}

#[test]
fn loopback_flag_agrees_with_loopback_block() {
    let recs = vec![
        record("lo", IFF_UP | IFF_LOOPBACK, 2, [127, 0, 0, 1]),
        record("eth0", IFF_UP | IFF_LOWER_UP, 2, [192, 168, 1, 5]),
    ];
    for iface in interfaces_from(&recs) {
        assert_eq!(iface.is_loopback(), iface.ip >> 24 == 127);
    }
}

#[test]
fn lower_up_follows_the_carrier_flag() {
    let up = Ipv4Interface { name: "eth0".to_string(), ip: 0x0A00_0001, flags: IFF_UP | IFF_LOWER_UP };
    let down = Ipv4Interface { name: "eth1".to_string(), ip: 0x0A00_0002, flags: IFF_UP };
    assert!(up.is_lower_up());
    assert!(!down.is_lower_up());
    assert!(!up.is_loopback());
}

#[test]
fn link_local_is_exactly_169_254() {
    assert!(is_link_local_addr(0xA9FE_0000));
    assert!(is_link_local_addr(0xA9FE_FFFF));
    assert!(is_link_local_addr(0xA9FE_0102));
    assert!(!is_link_local_addr(0xA9FD_FFFF));
    assert!(!is_link_local_addr(0xA9FF_0000));
    assert!(!is_link_local_addr(0x7F00_0001));
    assert!(!is_link_local_addr(0x0808_0808));
    assert!(!is_link_local_addr(0));
    assert!(!is_link_local_addr(u32::MAX));
    for ip in [0xA9FE_0102u32, 0x0808_0808, 0x7F00_0001] {
        assert_eq!(is_link_local_addr(ip), is_link_local_addr(ip));
    }
}

#[test]
fn network_order_bytes_give_host_order_value() {
    assert_eq!(from_be_octets([192, 168, 1, 5]), 0xC0A8_0105);
    assert_eq!(from_be_octets([0, 0, 0, 0]), 0);
    assert_eq!(from_be_octets([255, 255, 255, 255]), u32::MAX);
    assert_eq!(from_be_octets([1, 2, 3, 4]), 0x0102_0304);
}

#[test]
fn malformed_name_is_decoded_lossily() {
    let recs = vec![IfAddrRecord {
        name: vec![b'e', 0xFF, b'0'],
        flags: IFF_UP,
        addr: Some(SockAddr { family: 2, octets: [10, 0, 0, 1] }),
    }];
    let out = interfaces_from(&recs);
    assert_eq!(out.len(), 1);
    assert_eq!(out[0].name, "e\u{FFFD}0");
}
