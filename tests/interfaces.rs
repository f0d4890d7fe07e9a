use interfaces::address::{convert_ifaddr_address, convert_ifaddr_family};
use interfaces::{
    ConstantTable, Interface, InterfaceFlags, Kind, NextHop, RawRecord, RawSockAddr, SocketAddr,
    SocketAddrV4,
};

const AF_INET: i32 = 2;
const AF_INET6: i32 = 10;
const AF_PACKET: i32 = 17;

fn table() -> ConstantTable {
    ConstantTable {
        entries: vec![("AF_PACKET".to_string(), AF_PACKET as u64)],
        af_inet: AF_INET,
        af_inet6: AF_INET6,
    }
}

fn v4(a: u8, b: u8, c: u8, d: u8) -> RawSockAddr {
    RawSockAddr { family: AF_INET, data: vec![0, 0, a, b, c, d, 0, 0, 0, 0, 0, 0, 0, 0] }
}

fn v6_loopback() -> RawSockAddr {
    let mut data = vec![0; 26];
    data[21] = 1;
    RawSockAddr { family: AF_INET6, data }
}

fn record(name: &str, flags: u32, addr: Option<RawSockAddr>) -> RawRecord {
    RawRecord { name: Some(name.to_string()), flags, addr, netmask: None, ifu: None }
}

fn sample() -> Vec<RawRecord> {
    vec![
        record("eth0", 0x1043, Some(v4(10, 0, 0, 2))),
        record("lo", 0x49, Some(v4(127, 0, 0, 1))),
        record("eth0", 0x1043, Some(v6_loopback())),
    ]
}

#[test]
fn test_interface_is_comparable() {
    let ifs = Interface::get_all(&sample(), &table());

    assert!(ifs[0] == ifs[0]);
}

#[test]
fn grouping_by_name() {
    let ifs = Interface::get_all(&sample(), &table());
    assert_eq!(ifs.len(), 2);
    let eth0 = ifs.iter().find(|i| i.name == "eth0").unwrap();
    let lo = ifs.iter().find(|i| i.name == "lo").unwrap();
    assert_eq!(eth0.addresses.len(), 2);
    assert_eq!(lo.addresses.len(), 1);
    assert_eq!(eth0.addresses[0].kind, Kind::Ipv4);
    assert_eq!(eth0.addresses[1].kind, Kind::Ipv6);
    assert!(lo.is_loopback());
}

#[test]
fn listing_twice_gives_the_same_names() {
    let records = sample();
    let mut a: Vec<String> = Interface::get_all(&records, &table()).into_iter().map(|i| i.name).collect();
    let mut b: Vec<String> = Interface::get_all(&records, &table()).into_iter().map(|i| i.name).collect();
    a.sort();
    b.sort();
    assert_eq!(a, b);
    assert_eq!(a, vec!["eth0".to_string(), "lo".to_string()]);
}

#[test]
fn flags_come_from_the_first_record() {
    let records = vec![record("eth0", 0x1, None), record("eth0", 0x3, Some(v4(10, 0, 0, 2)))];
    let ifs = Interface::get_all(&records, &table());
    assert_eq!(ifs.len(), 1);
    assert_eq!(ifs[0].flags.bits(), 0x1);
    assert_eq!(ifs[0].addresses.len(), 1);
}

#[test]
fn records_without_a_valid_name_are_skipped() {
    let mut records = sample();
    records.push(RawRecord { name: None, flags: 0, addr: Some(v4(1, 2, 3, 4)), netmask: None, ifu: None });
    assert_eq!(Interface::get_all(&records, &table()).len(), 2);
    assert!(Interface::get_all(&vec![], &table()).is_empty());
}

#[test]
fn unknown_family_is_kept() {
    let records = vec![
        record("tun0", 0x11, Some(RawSockAddr { family: 99, data: vec![1, 2, 3] })),
    ];
    let ifs = Interface::get_all(&records, &table());
    assert_eq!(ifs.len(), 1);
    assert_eq!(ifs[0].addresses.len(), 1);
    let a = ifs[0].addresses[0];
    assert_eq!(a.kind, Kind::Unknown(99));
    assert_eq!(a.addr, None);
    assert_eq!(a.mask, None);
}

#[test]
fn families_are_classified() {
    let t = table();
    assert_eq!(convert_ifaddr_family(AF_INET, &t), Kind::Ipv4);
    assert_eq!(convert_ifaddr_family(AF_INET6, &t), Kind::Ipv6);
    assert_eq!(convert_ifaddr_family(AF_PACKET, &t), Kind::Packet);
    assert_eq!(convert_ifaddr_family(18, &t), Kind::Unknown(18));
    let bsd = ConstantTable { entries: vec![("AF_LINK".to_string(), 18)], af_inet: 2, af_inet6: 30 };
    assert_eq!(convert_ifaddr_family(18, &bsd), Kind::Link);
    assert_eq!(convert_ifaddr_family(17, &bsd), Kind::Unknown(17));
}

#[test]
fn kind_text() {
    assert_eq!(Kind::Ipv4.as_string(), "IPv4");
    assert_eq!(Kind::Ipv6.as_string(), "IPv6");
    assert_eq!(Kind::Link.as_string(), "Link");
    assert_eq!(Kind::Packet.as_string(), "Packet");
    assert_eq!(Kind::Unknown(0).as_string(), "Unknown(0)");
    assert_eq!(Kind::Unknown(99).as_string(), "Unknown(99)");
    assert_eq!(Kind::Unknown(-5).as_string(), "Unknown(-5)");
    assert_eq!(Kind::Unknown(i32::MIN).as_string(), "Unknown(-2147483648)");
    assert_eq!(Kind::Unknown(i32::MAX).as_string(), "Unknown(2147483647)");
}

#[test]
fn broadcast_flag_selects_the_broadcast_reading() {
    let mut rec = record("eth0", InterfaceFlags::IFF_BROADCAST | InterfaceFlags::IFF_UP, Some(v4(10, 0, 0, 2)));
    rec.netmask = Some(v4(255, 255, 255, 0));
    rec.ifu = Some(v4(10, 0, 0, 255));
    let a = convert_ifaddr_address(&rec, &table()).unwrap();
    assert_eq!(a.mask, Some(SocketAddr::V4(SocketAddrV4 { ip: [255, 255, 255, 0], port: 0 })));
    assert_eq!(a.hop, Some(NextHop::Broadcast(SocketAddr::V4(SocketAddrV4 { ip: [10, 0, 0, 255], port: 0 }))));
}

#[test]
fn unflagged_record_selects_the_destination_reading() {
    let mut rec = record("ppp0", InterfaceFlags::IFF_POINTOPOINT, Some(v4(10, 64, 0, 1)));
    rec.ifu = Some(v4(10, 64, 0, 2));
    let a = convert_ifaddr_address(&rec, &table()).unwrap();
    assert_eq!(a.addr, Some(SocketAddr::V4(SocketAddrV4 { ip: [10, 64, 0, 1], port: 0 })));
    assert_eq!(a.hop, Some(NextHop::Destination(SocketAddr::V4(SocketAddrV4 { ip: [10, 64, 0, 2], port: 0 }))));
}

#[test]
fn record_without_address_gives_no_address() {
    assert!(convert_ifaddr_address(&record("eth0", 0, None), &table()).is_none());
}

#[test]
fn get_by_name_collects_every_record() {
    let found = Interface::get_by_name(&sample(), &table(), "eth0").unwrap();
    assert_eq!(found.name, "eth0");
    assert_eq!(found.addresses.len(), 2);
    assert_eq!(found.flags.bits(), 0x1043);
}

#[test]
fn get_by_name_nonexistent_is_none() {
    assert!(Interface::get_by_name(&sample(), &table(), "nonexistent").is_none());
    assert!(Interface::get_by_name(&vec![], &table(), "nonexistent").is_none());
}

#[test]
fn up_only_flag_word() {
    let records = vec![record("eth0", 0x1, None)];
    let ifs = Interface::get_all(&records, &table());
    assert!(ifs[0].is_up());
    assert!(!ifs[0].is_loopback());
}

#[test]
fn interfaces_compare_by_name() {
    let a = Interface { name: "eth0".to_string(), addresses: vec![], flags: InterfaceFlags::from_bits(1) };
    let b = Interface { name: "eth0".to_string(), addresses: vec![], flags: InterfaceFlags::from_bits(0) };
    let c = Interface { name: "lo".to_string(), addresses: vec![], flags: InterfaceFlags::from_bits(1) };
    assert!(a == b);
    assert!(a != c);
}
