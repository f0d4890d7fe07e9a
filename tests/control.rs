use interfaces::flags::set_up_bit;
use interfaces::{
    copy_slice, ConstantTable, ControlRequest, FlagsAction, HardwareAddr, Interface, InterfaceFlags,
    InterfacesError, RawRecord, RawSockAddr, SetUpStage, IFNAMSIZ,
};

fn iface(name: &str, flags: u32) -> Interface {
    Interface { name: name.to_string(), addresses: vec![], flags: InterfaceFlags::from_bits(flags) }
}

fn table(names: &[(&str, u64)]) -> ConstantTable {
    ConstantTable {
        entries: names.iter().map(|(n, v)| (n.to_string(), *v)).collect(),
        af_inet: 2,
        af_inet6: 10,
    }
}

fn eth0_buffer() -> [u8; IFNAMSIZ] {
    let mut b = [0u8; IFNAMSIZ];
    b[..4].copy_from_slice(b"eth0");
    b
}

#[test]
fn copy_slice_copies_what_fits() {
    let mut dst = [9u8; 4];
    assert_eq!(copy_slice(&mut dst, b"ab"), 2);
    assert_eq!(dst, [b'a', b'b', 9, 9]);
    let mut small = [0u8; 2];
    assert_eq!(copy_slice(&mut small, b"abcd"), 2);
    assert_eq!(small, [b'a', b'b']);
}

#[test]
fn request_name_is_zero_padded_and_cut() {
    assert_eq!(iface("eth0", 0).request_name(), eth0_buffer());
    let long = iface("a-very-long-interface-name", 0).request_name();
    assert_eq!(&long[..], b"a-very-long-inte");
}

#[test]
fn missing_mtu_code_is_not_supported() {
    let r = iface("eth0", 0).mtu_request(&table(&[("SIOCGIFFLAGS", 1)]));
    assert!(matches!(r, Err(InterfacesError::NotSupported("SIOCGIFMTU"))));
}

#[test]
fn mtu_request_carries_code_and_name() {
    let r = iface("eth0", 0).mtu_request(&table(&[("SIOCGIFMTU", 0x8921)])).unwrap();
    assert_eq!(r, ControlRequest { code: 0x8921, name: eth0_buffer() });
}

#[test]
fn hwaddr_request() {
    let missing = iface("eth0", 0).hwaddr_request(&table(&[]));
    assert!(matches!(missing, Err(InterfacesError::NotSupported("SIOCGIFHWADDR"))));
    let r = iface("eth0", 0).hwaddr_request(&table(&[("SIOCGIFHWADDR", 0x8927)])).unwrap();
    assert_eq!(r, ControlRequest { code: 0x8927, name: eth0_buffer() });
}

#[test]
fn set_up_needs_both_flag_codes() {
    let i = iface("eth0", 1);
    let none = i.set_up_start(&table(&[]), true);
    assert!(matches!(none, Err(InterfacesError::NotSupported("SIOCGIFFLAGS"))));
    let read_only = i.set_up_start(&table(&[("SIOCGIFFLAGS", 0x8913)]), true);
    assert!(matches!(read_only, Err(InterfacesError::NotSupported("SIOCSIFFLAGS"))));
    let write_only = i.set_up_start(&table(&[("SIOCSIFFLAGS", 0x8914)]), true);
    assert!(matches!(write_only, Err(InterfacesError::NotSupported("SIOCGIFFLAGS"))));
}

#[test]
fn set_down_changes_only_the_up_bit() {
    let mut i = iface("eth0", 0x8000_0001);
    let t = table(&[("SIOCGIFFLAGS", 0x8913), ("SIOCSIFFLAGS", 0x8914)]);
    let (read, mut stage) = i.set_up_start(&t, false).unwrap();
    assert_eq!(read, ControlRequest { code: 0x8913, name: eth0_buffer() });
    assert_eq!(stage, SetUpStage::Reading { set_code: 0x8914, name: eth0_buffer(), up: false });
    match i.set_up_step(&mut stage, Ok(0x8000_0001)) {
        FlagsAction::Write(q, word) => {
            assert_eq!(q, ControlRequest { code: 0x8914, name: eth0_buffer() });
            assert_eq!(word, 0x8000_0000);
        }
        other => panic!("unexpected {:?}", other),
    }
    assert_eq!(stage, SetUpStage::Writing { flags: 0x8000_0000 });
    assert!(i.is_up());
    assert!(matches!(i.set_up_step(&mut stage, Ok(0x8000_0000)), FlagsAction::Done(Ok(()))));
    assert_eq!(stage, SetUpStage::Finished);
    assert!(!i.is_up());
    assert_eq!(i.flags.bits(), 0x8000_0000);
}

#[test]
fn set_up_sets_the_up_bit() {
    let mut i = iface("eth0", 0x1002);
    let t = table(&[("SIOCGIFFLAGS", 0x8913), ("SIOCSIFFLAGS", 0x8914)]);
    let (_, mut stage) = i.set_up_start(&t, true).unwrap();
    match i.set_up_step(&mut stage, Ok(0x1002)) {
        FlagsAction::Write(_, word) => assert_eq!(word, 0x1003),
        other => panic!("unexpected {:?}", other),
    }
    assert!(matches!(i.set_up_step(&mut stage, Ok(0x1003)), FlagsAction::Done(Ok(()))));
    assert!(i.is_up());
}

#[test]
fn a_failed_call_ends_the_change() {
    let mut i = iface("eth0", 1);
    let t = table(&[("SIOCGIFFLAGS", 0x8913), ("SIOCSIFFLAGS", 0x8914)]);
    let (_, mut stage) = i.set_up_start(&t, false).unwrap();
    let action = i.set_up_step(&mut stage, Err(InterfacesError::Errno(nix::errno::Errno::EPERM)));
    assert!(matches!(action, FlagsAction::Done(Err(InterfacesError::Errno(nix::errno::Errno::EPERM)))));
    assert_eq!(stage, SetUpStage::Finished);
    assert_eq!(i.flags.bits(), 1);

    let (_, mut stage) = i.set_up_start(&t, false).unwrap();
    let _ = i.set_up_step(&mut stage, Ok(1));
    let action = i.set_up_step(&mut stage, Err(InterfacesError::Errno(nix::errno::Errno::EACCES)));
    assert!(matches!(action, FlagsAction::Done(Err(InterfacesError::Errno(nix::errno::Errno::EACCES)))));
    assert_eq!(i.flags.bits(), 1);
}

#[test]
fn up_bit_helpers() {
    assert_eq!(set_up_bit(0x8000_0001, false), 0x8000_0000);
    assert_eq!(set_up_bit(0x8000_0000, true), 0x8000_0001);
    assert_eq!(set_up_bit(0x1, true), 0x1);
    let f = InterfaceFlags::from_bits(0xffff_ffff).with_up(false);
    assert_eq!(f.bits(), 0xffff_fffe);
    assert!(f.contains(InterfaceFlags::IFF_LOOPBACK));
    assert!(!f.contains(InterfaceFlags::IFF_UP));
}

fn link_record(name: &str, family: i32, data: Vec<u8>) -> RawRecord {
    RawRecord {
        name: Some(name.to_string()),
        flags: 0,
        addr: Some(RawSockAddr { family, data }),
        netmask: None,
        ifu: None,
    }
}

#[test]
fn hardware_address_from_the_list() {
    let t = table(&[("AF_LINK", 18)]);
    let records = vec![
        link_record("en1", 18, vec![2, 0, 6, 3, 6, 0, b'e', b'n', b'1', 9, 9, 9, 9, 9, 9]),
        link_record("en0", 2, vec![0, 0, 10, 0, 0, 1]),
        link_record("en0", 18, vec![1, 0, 6, 3, 6, 0, b'e', b'n', b'0', 1, 2, 3, 4, 5, 6]),
        link_record("en0", 18, vec![1, 0, 6, 3, 6, 0, b'e', b'n', b'0', 7, 7, 7, 7, 7, 7]),
    ];
    let h = iface("en0", 0).hardware_addr_from_list(&t, &records).unwrap();
    assert_eq!(h, HardwareAddr([1, 2, 3, 4, 5, 6]));

    let none = iface("en2", 0).hardware_addr_from_list(&t, &records);
    assert!(matches!(none, Err(InterfacesError::NotSupported("No AF_LINK"))));

    let no_family = iface("en0", 0).hardware_addr_from_list(&table(&[]), &records);
    assert!(matches!(no_family, Err(InterfacesError::NotSupported("AF_LINK"))));
}

#[test]
fn error_descriptions() {
    assert_eq!(InterfacesError::NotSupported("x").description(), "A required feature is not supported");
    assert_eq!(InterfacesError::last_os_error().description(), "A syscall error occured");
    assert!(matches!(InterfacesError::last_os_error(), InterfacesError::Errno(_)));
    let e: InterfacesError = nix::errno::Errno::ENODEV.into();
    assert!(matches!(e, InterfacesError::Errno(nix::errno::Errno::ENODEV)));
}
