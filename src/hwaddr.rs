use vstd::prelude::*;
use vstd::string::*;

use crate::text::{bare_hex, colon_hex, push_hex_byte};

verus! {

/// A hardware (link-layer) address of an interface, commonly known as a MAC address.
#[derive(Debug, PartialEq, Eq, Clone, Copy, Hash)]
pub struct HardwareAddr(pub [u8; 6]);

/// Where the link-layer address stands in the bytes that follow the family field of a
/// link-level socket address (`sockaddr_dl`): after the index (two bytes), the type, the
/// name length, the address length and the selector length comes the name, and then the
/// address.
pub open spec fn link_layer_bytes(d: Seq<u8>) -> Option<Seq<u8>> {
    if d.len() >= 4 && 12 + d[3] <= d.len() {
        Some(d.subrange(6 + d[3], 12 + d[3]))
    } else {
        None
    }
}

impl HardwareAddr {
    /// Returns a new, empty `HardwareAddr`: the address `00:00:00:00:00:00`.
    pub fn zero() -> (r: HardwareAddr)
        ensures
            r.0@ == seq![0u8, 0u8, 0u8, 0u8, 0u8, 0u8],
    {
        let r = HardwareAddr([0; 6]);
        assert(r.0@ =~= seq![0u8, 0u8, 0u8, 0u8, 0u8, 0u8]);
        r
    }

    /// Formats this address as six two-digit hexadecimal octets separated by colons.
    pub fn as_string(&self) -> (r: String)
        ensures
            r@ == colon_hex(self.0@),
    {
        let mut s = String::new();
        let mut i: usize = 0;
        while i < 6
            invariant
                i <= 6,
                s@ == colon_hex(self.0@.take(i as int)),
            decreases 6 - i,
        {
            if i > 0 {
                let colon = ":";
                proof {
                    reveal_strlit(":");
                }
                s.append(colon);
            }
            push_hex_byte(&mut s, self.0[i]);
            proof {
                let t = self.0@.take(i as int + 1);
                assert(t.drop_last() =~= self.0@.take(i as int));
                assert(s@ =~= colon_hex(t));
            }
            i = i + 1;
        }
        assert(self.0@.take(6) =~= self.0@);
        s
    }

    /// Formats this address as twelve hexadecimal digits, without separators.
    pub fn as_bare_string(&self) -> (r: String)
        ensures
            r@ == bare_hex(self.0@),
    {
        let mut s = String::new();
        let mut i: usize = 0;
        while i < 6
            invariant
                i <= 6,
                s@ == bare_hex(self.0@.take(i as int)),
            decreases 6 - i,
        {
            push_hex_byte(&mut s, self.0[i]);
            proof {
                let t = self.0@.take(i as int + 1);
                assert(t.drop_last() =~= self.0@.take(i as int));
                assert(s@ =~= bare_hex(t));
            }
            i = i + 1;
        }
        assert(self.0@.take(6) =~= self.0@);
        s
    }

    /// The six bytes of this address.
    pub fn as_bytes(&self) -> (r: &[u8])
        ensures
            r@ == self.0@,
    {
        self.0.as_slice()
    }

    /// The address held in the first six bytes of the data of a socket address, as a
    /// hardware-address control call fills it.
    pub fn from_sa_data(data: &[u8]) -> (r: HardwareAddr)
        requires
            data@.len() >= 6,
        ensures
            r.0@ == data@.take(6),
    {
        let r = HardwareAddr([data[0], data[1], data[2], data[3], data[4], data[5]]);
        assert(r.0@ =~= data@.take(6));
        r
    }

    /// The address that a link-level socket address carries after the interface name, if the
    /// bytes hold all six of it.
    pub fn from_link_layer(d: &[u8]) -> (r: Option<HardwareAddr>)
        ensures
            match link_layer_bytes(d@) {
                Some(b) => r is Some && r->Some_0.0@ == b,
                None => r is None,
            },
    {
        if d.len() < 4 {
            return None;
        }
        let start = 6 + d[3] as usize;
        if start + 6 > d.len() {
            return None;
        }
        let r = HardwareAddr([d[start], d[start + 1], d[start + 2], d[start + 3], d[start + 4], d[start + 5]]);
        assert(r.0@ =~= d@.subrange(start as int, start as int + 6));
        Some(r)
    }
}

} // verus!
