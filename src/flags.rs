use vstd::prelude::*;

verus! {

/// The state flags of a network interface, as one word of bits.
///
/// Every bit of the word is kept, also those that no constant below names.
#[derive(Debug, PartialEq, Eq, Clone, Copy, Hash)]
pub struct InterfaceFlags {
    pub bits: u32,
}

impl InterfaceFlags {
    /// Interface is up.
    pub const IFF_UP: u32 = 0x1;

    /// Broadcast address valid.
    pub const IFF_BROADCAST: u32 = 0x2;

    /// Turn on debugging.
    pub const IFF_DEBUG: u32 = 0x4;

    /// Is a loopback net.
    pub const IFF_LOOPBACK: u32 = 0x8;

    /// Interface is point-to-point link.
    pub const IFF_POINTOPOINT: u32 = 0x10;

    /// Avoid use of trailers.
    pub const IFF_NOTRAILERS: u32 = 0x20;

    /// Resources allocated.
    pub const IFF_RUNNING: u32 = 0x40;

    /// No address resolution protocol.
    pub const IFF_NOARP: u32 = 0x80;

    /// Receive all packets.
    pub const IFF_PROMISC: u32 = 0x100;

    /// Receive all multicast packets.
    pub const IFF_ALLMULTI: u32 = 0x200;

    /// Master of a load balancer.
    pub const IFF_MASTER: u32 = 0x400;

    /// Slave of a load balancer.
    pub const IFF_SLAVE: u32 = 0x800;

    /// Supports multicast.
    pub const IFF_MULTICAST: u32 = 0x1000;

    /// Can set media type.
    pub const IFF_PORTSEL: u32 = 0x2000;

    /// Auto media select active.
    pub const IFF_AUTOMEDIA: u32 = 0x4000;

    /// Dialup device with changing addresses.
    pub const IFF_DYNAMIC: u32 = 0x8000;

    /// Flags made of the given word, every bit of it kept.
    pub fn from_bits(bits: u32) -> (r: InterfaceFlags)
        ensures
            r.bits == bits,
    {
        InterfaceFlags { bits }
    }

    /// The word of bits.
    pub fn bits(&self) -> (r: u32)
        ensures
            r == self.bits,
    {
        self.bits
    }

    /// Whether every bit of `mask` is set.
    pub fn contains(&self, mask: u32) -> (r: bool)
        ensures
            r == (self.bits & mask == mask),
    {
        self.bits & mask == mask
    }

    /// The same flags with the up bit set when `up` holds and cleared otherwise.
    pub fn with_up(&self, up: bool) -> (r: InterfaceFlags)
        ensures
            r.bits == up_word(self.bits, up),
            (r.bits & Self::IFF_UP == Self::IFF_UP) == up,
            r.bits & !Self::IFF_UP == self.bits & !Self::IFF_UP,
    {
        let bits = set_up_bit(self.bits, up);
        InterfaceFlags { bits }
    }
}

/// `word` with the up bit set when `up` holds and cleared otherwise.
pub open spec fn up_word(word: u32, up: bool) -> u32 {
    if up {
        word | InterfaceFlags::IFF_UP
    } else {
        word & !InterfaceFlags::IFF_UP
    }
}

/// Setting an interface up or down changes the up bit of its flag word and no other bit,
/// also none that no flag constant names.
pub proof fn lemma_up_word_changes_only_up_bit(word: u32, up: bool)
    ensures
        (up_word(word, up) & InterfaceFlags::IFF_UP == InterfaceFlags::IFF_UP) == up,
        up_word(word, up) & !InterfaceFlags::IFF_UP == word & !InterfaceFlags::IFF_UP,
{
    assert((word | 1u32) & 1u32 == 1u32) by (bit_vector);
    assert((word & !1u32) & 1u32 == 0u32) by (bit_vector);
    assert((word | 1u32) & !1u32 == word & !1u32) by (bit_vector);
    assert((word & !1u32) & !1u32 == word & !1u32) by (bit_vector);
}

/// Sets or clears the up bit of a raw flag word, and no other bit.
pub fn set_up_bit(word: u32, up: bool) -> (r: u32)
    ensures
        r == up_word(word, up),
        (r & InterfaceFlags::IFF_UP == InterfaceFlags::IFF_UP) == up,
        r & !InterfaceFlags::IFF_UP == word & !InterfaceFlags::IFF_UP,
{
    let r = if up {
        word | InterfaceFlags::IFF_UP
    } else {
        word & !InterfaceFlags::IFF_UP
    };
    proof {
        lemma_up_word_changes_only_up_bit(word, up);
    }
    r
}

} // verus!
