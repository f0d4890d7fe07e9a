use vstd::prelude::*;
use vstd::string::*;

use crate::constants::{get_constant, ConstantTable};
use crate::flags::InterfaceFlags;
use crate::sockaddr::{convert_sockaddr, convert_spec, RawSockAddr, SocketAddr};
use crate::text::{signed_decimal, signed_decimal_string};

verus! {

/// The family of an address (the `sa_family` field of a `sockaddr`).
#[derive(PartialEq, Eq, Debug, Clone, Copy)]
pub enum Kind {
    /// An IPv4 address.
    Ipv4,
    /// An IPv6 address.
    Ipv6,
    /// A link-level address (`AF_LINK`).
    Link,
    /// A family that this library does not know; the value is its numeric tag.
    Unknown(i32),
    /// A raw packet address (`AF_PACKET`).
    Packet,
}

/// The address on the other side of an interface address: its broadcast address, or the
/// destination of a point-to-point link.
#[derive(PartialEq, Eq, Debug, Clone, Copy)]
pub enum NextHop {
    /// The broadcast address associated with the interface's address.
    Broadcast(SocketAddr),
    /// The destination address of a point-to-point interface.
    Destination(SocketAddr),
}

/// One address of an interface.
#[derive(Debug, Clone, Copy)]
pub struct Address {
    /// The family of this address.
    pub kind: Kind,
    /// The address itself, where it is an IPv4 or IPv6 one.
    pub addr: Option<SocketAddr>,
    /// The netmask of this address, where it is an IPv4 or IPv6 one.
    pub mask: Option<SocketAddr>,
    /// The broadcast or destination address, if there is one.
    pub hop: Option<NextHop>,
}

/// One record of the operating system's list of interface addresses.
#[derive(Debug)]
pub struct RawRecord {
    /// The interface name; `None` where the operating system's name is not valid UTF-8.
    pub name: Option<String>,
    /// The raw flag word.
    pub flags: u32,
    /// The address, if the record has one.
    pub addr: Option<RawSockAddr>,
    /// The netmask, if the record has one.
    pub netmask: Option<RawSockAddr>,
    /// The union field that holds the broadcast address when the broadcast flag is set and
    /// the destination address otherwise.
    pub ifu: Option<RawSockAddr>,
}

/// The kind of address that a family tag stands for: the platform's packet and link
/// families are looked up by name first, then the IPv4 and IPv6 tags are compared.
pub open spec fn kind_of(family: i32, table: ConstantTable) -> Kind {
    let packet = table.value_of("AF_PACKET"@);
    let link = table.value_of("AF_LINK"@);
    if packet is Some && family == packet->Some_0 as i32 {
        Kind::Packet
    } else if link is Some && family == link->Some_0 as i32 {
        Kind::Link
    } else if family == table.af_inet {
        Kind::Ipv4
    } else if family == table.af_inet6 {
        Kind::Ipv6
    } else {
        Kind::Unknown(family)
    }
}

/// Whether a raw flag word has the broadcast bit.
pub open spec fn has_broadcast(flags: u32) -> bool {
    flags & InterfaceFlags::IFF_BROADCAST == InterfaceFlags::IFF_BROADCAST
}

/// The next hop of a record: the union field read as a broadcast address when the record's
/// broadcast flag is set, and as a destination address otherwise.
pub open spec fn hop_of(r: RawRecord, table: ConstantTable) -> Option<NextHop> {
    match convert_spec(r.ifu, table) {
        Some(a) => if has_broadcast(r.flags) {
            Some(NextHop::Broadcast(a))
        } else {
            Some(NextHop::Destination(a))
        },
        None => None,
    }
}

/// The address that a record contributes to its interface: none where the record has no
/// address, and otherwise one whose kind comes from the address's family tag.
pub open spec fn address_of(r: RawRecord, table: ConstantTable) -> Option<Address> {
    match r.addr {
        Some(sa) => Some(
            Address {
                kind: kind_of(sa.family, table),
                addr: socket_addr_of_raw(sa, table),
                mask: convert_spec(r.netmask, table),
                hop: hop_of(r, table),
            },
        ),
        None => None,
    }
}

/// The structured form of a present raw address.
pub open spec fn socket_addr_of_raw(sa: RawSockAddr, table: ConstantTable) -> Option<SocketAddr> {
    convert_spec(Some(sa), table)
}

/// A record whose address has a family that is none of the platform's packet, link, IPv4
/// and IPv6 families still gives an address: of kind `Unknown` with that family's tag, with
/// neither a structured address nor a netmask.
pub proof fn lemma_unknown_family_passthrough(r: RawRecord, table: ConstantTable)
    requires
        r.addr is Some,
        table.value_of("AF_PACKET"@) matches Some(v) ==> v as i32 != r.addr->Some_0.family,
        table.value_of("AF_LINK"@) matches Some(v) ==> v as i32 != r.addr->Some_0.family,
        r.addr->Some_0.family != table.af_inet,
        r.addr->Some_0.family != table.af_inet6,
        r.netmask matches Some(m) ==> m.family == r.addr->Some_0.family,
    ensures
        address_of(r, table) == Some(
            Address {
                kind: Kind::Unknown(r.addr->Some_0.family),
                addr: None,
                mask: None,
                hop: hop_of(r, table),
            },
        ),
{
}

/// The text of a kind, as `IPv4`, `IPv6`, `Link`, `Packet` or `Unknown(<tag>)`.
pub open spec fn kind_text(k: Kind) -> Seq<char> {
    match k {
        Kind::Ipv4 => "IPv4"@,
        Kind::Ipv6 => "IPv6"@,
        Kind::Link => "Link"@,
        Kind::Unknown(v) => "Unknown("@ + signed_decimal(v as int) + ")"@,
        Kind::Packet => "Packet"@,
    }
}

impl Kind {
    /// The text of this kind, as `IPv4`, `IPv6`, `Link`, `Packet` or `Unknown(<tag>)`.
    pub fn as_string(&self) -> (r: String)
        ensures
            r@ == kind_text(*self),
    {
        match self {
            Kind::Ipv4 => "IPv4".to_owned(),
            Kind::Ipv6 => "IPv6".to_owned(),
            Kind::Link => "Link".to_owned(),
            Kind::Unknown(v) => {
                let mut s = "Unknown(".to_owned();
                let digits = signed_decimal_string(*v);
                s.append(digits.as_str());
                s.append(")");
                s
            },
            Kind::Packet => "Packet".to_owned(),
        }
    }
}

/// Classifies a family tag. The platform's packet and link families are resolved by name
/// and win over the IPv4 and IPv6 tags; a tag that matches none of them is kept as
/// `Unknown`.
pub fn convert_ifaddr_family(family: i32, table: &ConstantTable) -> (r: Kind)
    ensures
        r == kind_of(family, *table),
{
    if let Some(val) = get_constant(table, "AF_PACKET") {
        if family == val as i32 {
            return Kind::Packet;
        }
    }
    if let Some(val) = get_constant(table, "AF_LINK") {
        if family == val as i32 {
            return Kind::Link;
        }
    }
    if family == table.af_inet {
        Kind::Ipv4
    } else if family == table.af_inet6 {
        Kind::Ipv6
    } else {
        Kind::Unknown(family)
    }
}

/// Normalises one raw record into an `Address`. A record without an address gives `None`.
/// Otherwise the address is kept whatever its family: where the family is neither IPv4 nor
/// IPv6 the structured address is absent, not an error. The union field is read as a
/// broadcast address when the record's broadcast flag is set, and as a destination address
/// otherwise.
pub fn convert_ifaddr_address(rec: &RawRecord, table: &ConstantTable) -> (r: Option<Address>)
    ensures
        r == address_of(*rec, *table),
        rec.addr is None ==> r is None,
        rec.addr is Some ==> r is Some && r->Some_0.kind == kind_of(rec.addr->Some_0.family, *table),
        r is Some && has_broadcast(rec.flags) ==> r->Some_0.hop == match convert_spec(rec.ifu, *table) {
            Some(a) => Some(NextHop::Broadcast(a)),
            None => None,
        },
        r is Some && !has_broadcast(rec.flags) ==> r->Some_0.hop == match convert_spec(rec.ifu, *table) {
            Some(a) => Some(NextHop::Destination(a)),
            None => None,
        },
{
    let sa = match &rec.addr {
        Some(sa) => sa,
        None => return None,
    };
    let kind = convert_ifaddr_family(sa.family, table);
    let addr = convert_sockaddr(Some(sa), table);
    let mask = convert_sockaddr(rec.netmask.as_ref(), table);
    let flags = InterfaceFlags::from_bits(rec.flags);
    let hop = if flags.contains(InterfaceFlags::IFF_BROADCAST) {
        match convert_sockaddr(rec.ifu.as_ref(), table) {
            Some(x) => Some(NextHop::Broadcast(x)),
            None => None,
        }
    } else {
        match convert_sockaddr(rec.ifu.as_ref(), table) {
            Some(x) => Some(NextHop::Destination(x)),
            None => None,
        }
    };
    Some(Address { kind, addr, mask, hop })
}

} // verus!
