use ipv4_interfaces::address::SockAddr;
use ipv4_interfaces::winders::{interfaces_from, AdapterRecord, Ipv4Interface};

fn wide(s: &str) -> Vec<u16> {
    s.encode_utf16().collect()
}

fn adapter(name: Vec<u16>, if_type: u32, oper_status: i32, family: u16, octets: [u8; 4]) -> AdapterRecord {
    AdapterRecord { name, if_type, oper_status, addr: Some(SockAddr { family, octets }) }
}

#[test]
fn adapters_translate_in_order() {
    let recs = vec![
        adapter(wide("Ethernet"), 6, 1, 2, [192, 168, 0, 10]),
        adapter(wide("Loopback Pseudo-Interface 1"), 24, 1, 2, [127, 0, 0, 1]),
    ];
    let out = interfaces_from(&recs);
    assert_eq!(out.len(), 2);
    assert_eq!(out[0].name, "Ethernet");
    assert_eq!(out[0].ip, 0xC0A8_000A);
    assert!(!out[0].is_loopback());
    assert!(out[0].is_up());
    assert_eq!(out[1].ip, 0x7F00_0001);
    assert!(out[1].is_loopback());
    assert!(!out[1].is_link_local());
}

#[test]
fn adapter_without_usable_address_or_name_is_skipped() {
    let recs = vec![
        AdapterRecord { name: wide("Wi-Fi"), if_type: 71, oper_status: 2, addr: None },
        adapter(wide("Tunnel"), 131, 1, 23, [0, 0, 0, 0]),
        adapter(vec![0xD800], 6, 1, 2, [10, 0, 0, 1]),
        adapter(wide("Ethernet 2"), 6, 2, 2, [169, 254, 7, 7]),
    ];
    let out = interfaces_from(&recs);
    assert_eq!(out.len(), 1);
    assert_eq!(out[0].name, "Ethernet 2");
    assert!(out[0].is_link_local());
    assert!(!out[0].is_up());
}

#[test]
fn empty_adapter_list_gives_no_interfaces() {
    let recs: Vec<AdapterRecord> = Vec::new();
    assert!(interfaces_from(&recs).is_empty());
}

#[test]
fn up_follows_operational_status() {
    let up = Ipv4Interface { name: "a".to_string(), ip: 1, if_type: 6, oper_status: 1 };
    let down = Ipv4Interface { name: "b".to_string(), ip: 1, if_type: 6, oper_status: 2 };
    assert!(up.is_up());
    assert!(!down.is_up());
}
