use vstd::prelude::*;

use crate::constants::ConstantTable;

verus! {

/// A socket address as the operating system hands it over: its family tag, and the bytes
/// that follow the family field in the native structure, as they are stored there.
///
/// For IPv4 those bytes are the port (two bytes, network order) and the address (four
/// bytes). For IPv6 they are the port (two bytes, network order), the flow information (four
/// bytes, network order), the address (sixteen bytes) and the scope identifier (four bytes,
/// host order).
#[derive(Debug)]
pub struct RawSockAddr {
    pub family: i32,
    pub data: Vec<u8>,
}

/// An IPv4 address with a port.
#[derive(Debug, PartialEq, Eq, Clone, Copy)]
pub struct SocketAddrV4 {
    /// The four octets of the address, in the order they are written.
    pub ip: [u8; 4],
    pub port: u16,
}

/// An IPv6 address with a port.
#[derive(Debug, PartialEq, Eq, Clone, Copy)]
pub struct SocketAddrV6 {
    /// The eight 16-bit segments of the address, in the order they are written.
    pub ip: [u16; 8],
    pub port: u16,
    pub flowinfo: u32,
    /// The scope identifier's four bytes as the operating system stored them (host order).
    pub scope_id: [u8; 4],
}

/// An IPv4 or IPv6 socket address.
#[derive(Debug, PartialEq, Eq, Clone, Copy)]
pub enum SocketAddr {
    V4(SocketAddrV4),
    V6(SocketAddrV6),
}

/// The 16-bit number whose high byte is `hi` and whose low byte is `lo`.
pub open spec fn be16(hi: u8, lo: u8) -> u16 {
    (hi as int * 256 + lo as int) as u16
}

/// The 32-bit number stored in network order at `d[at..at + 4]`.
pub open spec fn be32(d: Seq<u8>, at: int) -> u32 {
    (d[at] as int * 16777216 + d[at + 1] as int * 65536 + d[at + 2] as int * 256
        + d[at + 3] as int) as u32
}

/// The structured address that a raw socket address stands for, if its family is IPv4 or
/// IPv6 and its bytes are long enough for it.
pub open spec fn socket_addr_of(sa: RawSockAddr, table: ConstantTable) -> Option<SocketAddr> {
    let d = sa.data@;
    if sa.family == table.af_inet && d.len() >= 6 {
        Some(SocketAddr::V4(SocketAddrV4 { ip: [d[2], d[3], d[4], d[5]], port: be16(d[0], d[1]) }))
    } else if sa.family == table.af_inet6 && d.len() >= 26 {
        Some(
            SocketAddr::V6(
                SocketAddrV6 {
                    ip: [
                        be16(d[6], d[7]),
                        be16(d[8], d[9]),
                        be16(d[10], d[11]),
                        be16(d[12], d[13]),
                        be16(d[14], d[15]),
                        be16(d[16], d[17]),
                        be16(d[18], d[19]),
                        be16(d[20], d[21]),
                    ],
                    port: be16(d[0], d[1]),
                    flowinfo: be32(d, 2),
                    scope_id: [d[22], d[23], d[24], d[25]],
                },
            ),
        )
    } else {
        None
    }
}

/// The structured address of an optional raw socket address.
pub open spec fn convert_spec(sa: Option<RawSockAddr>, table: ConstantTable) -> Option<SocketAddr> {
    match sa {
        Some(s) => socket_addr_of(s, table),
        None => None,
    }
}

/// Joins a high and a low byte into a 16-bit number.
pub fn make_int16(hi: u8, lo: u8) -> (r: u16)
    ensures
        r == be16(hi, lo),
        r == hi as int * 256 + lo as int,
{
    let h = hi as u16;
    let l = lo as u16;
    assert(h < 256 && l < 256 ==> (l | (h << 8u16)) == h * 256 + l) by (bit_vector);
    (lo as u16) | ((hi as u16) << 8)
}

/// Reads a 32-bit number stored in network order at `d[at..at + 4]`.
fn read_be32(d: &Vec<u8>, at: usize) -> (r: u32)
    requires
        at + 4 <= d@.len(),
    ensures
        r == be32(d@, at as int),
{
    let n = d.len();
    assert(at + 4 <= n);
    let b0 = d[at] as u32;
    let b1 = d[at + 1] as u32;
    let b2 = d[at + 2] as u32;
    let b3 = d[at + 3] as u32;
    assert(b0 * 16777216 + b1 * 65536 + b2 * 256 + b3 <= 0xffff_ffff) by (nonlinear_arith)
        requires
            b0 < 256,
            b1 < 256,
            b2 < 256,
            b3 < 256,
    ;
    b0 * 16777216 + b1 * 65536 + b2 * 256 + b3
}

/// Turns a raw socket address into an IPv4 or IPv6 socket address. Any other family, an
/// absent address or one too short for its family gives `None`. The bytes are read as the
/// operating system stored them; nothing is swapped.
pub fn convert_sockaddr(sa: Option<&RawSockAddr>, table: &ConstantTable) -> (r: Option<SocketAddr>)
    ensures
        r == match sa {
            Some(s) => socket_addr_of(*s, *table),
            None => None,
        },
{
    let sa = match sa {
        Some(s) => s,
        None => return None,
    };
    let d = &sa.data;
    if sa.family == table.af_inet && d.len() >= 6 {
        Some(
            SocketAddr::V4(
                SocketAddrV4 { ip: [d[2], d[3], d[4], d[5]], port: make_int16(d[0], d[1]) },
            ),
        )
    } else if sa.family == table.af_inet6 && d.len() >= 26 {
        let ip = [
            make_int16(d[6], d[7]),
            make_int16(d[8], d[9]),
            make_int16(d[10], d[11]),
            make_int16(d[12], d[13]),
            make_int16(d[14], d[15]),
            make_int16(d[16], d[17]),
            make_int16(d[18], d[19]),
            make_int16(d[20], d[21]),
        ];
        Some(
            SocketAddr::V6(
                SocketAddrV6 {
                    ip,
                    port: make_int16(d[0], d[1]),
                    flowinfo: read_be32(d, 2),
                    scope_id: [d[22], d[23], d[24], d[25]],
                },
            ),
        )
    } else {
        None
    }
}

} // verus!
