//! Plain-value network types: IPv4/IPv6 addresses and MAC addresses.
//!
//! Addresses are held as fixed-width integers so that every derived value
//! (octets, broadcast addresses, prefix membership) is ordinary arithmetic
//! that can be stated and proved exactly.

use vstd::prelude::*;

verus! {

/// An IPv4 address, held as the 32-bit big-endian integer value.
#[derive(Clone, Copy, PartialEq, Eq, Structural, Debug, Hash)]
pub struct Ipv4Address {
    pub value: u32,
}

/// An IPv6 address, held as the 128-bit big-endian integer value.
#[derive(Clone, Copy, PartialEq, Eq, Structural, Debug, Hash)]
pub struct Ipv6Address {
    pub value: u128,
}

/// An IP address of either family.
#[derive(Clone, Copy, PartialEq, Eq, Structural, Debug, Hash)]
pub enum IpAddress {
    V4(Ipv4Address),
    V6(Ipv6Address),
}

impl Ipv4Address {
    pub fn new(value: u32) -> (r: Self)
        ensures
            r.value == value,
    {
        Ipv4Address { value }
    }

    /// An IPv4 multicast address has its first octet in 224..=239.
    pub open spec fn spec_is_multicast(self) -> bool {
        0xE000_0000u32 <= self.value < 0xF000_0000u32
    }

    pub fn is_multicast(&self) -> (r: bool)
        ensures
            r == self.spec_is_multicast(),
    {
        0xE000_0000u32 <= self.value && self.value < 0xF000_0000u32
    }

    /// The network-order octet of the address at position `i` (0 is the most
    /// significant).
    pub open spec fn spec_octet(self, i: int) -> u8 {
        (((self.value >> (((3 - i) * 8) as u32)) & 0xff) as u8)
    }

    /// The four network-order octets of the address.
    pub open spec fn spec_octets(self) -> Seq<u8> {
        Seq::new(4, |i: int| self.spec_octet(i))
    }

    pub fn octets(&self) -> (r: Vec<u8>)
        ensures
            r@ == self.spec_octets(),
    {
        let v = self.value;
        let mut r: Vec<u8> = Vec::new();
        r.push(((v >> 24u32) & 0xff) as u8);
        r.push(((v >> 16u32) & 0xff) as u8);
        r.push(((v >> 8u32) & 0xff) as u8);
        r.push(((v >> 0u32) & 0xff) as u8);
        proof {
            assert(r@ =~= self.spec_octets());
        }
        r
    }
}

impl Ipv6Address {
    pub fn new(value: u128) -> (r: Self)
        ensures
            r.value == value,
    {
        Ipv6Address { value }
    }

    /// An IPv6 multicast address has 0xff as its first octet.
    pub open spec fn spec_is_multicast(self) -> bool {
        self.value >= 0xff00_0000_0000_0000_0000_0000_0000_0000u128
    }

    pub fn is_multicast(&self) -> (r: bool)
        ensures
            r == self.spec_is_multicast(),
    {
        self.value >= 0xff00_0000_0000_0000_0000_0000_0000_0000u128
    }

    /// The network-order octet of the address at position `i` (0 is the most
    /// significant).
    pub open spec fn spec_octet(self, i: int) -> u8 {
        (((self.value >> (((15 - i) * 8) as u32)) & 0xff) as u8)
    }

    /// The sixteen network-order octets of the address.
    pub open spec fn spec_octets(self) -> Seq<u8> {
        Seq::new(16, |i: int| self.spec_octet(i))
    }

    pub fn octets(&self) -> (r: Vec<u8>)
        ensures
            r@ == self.spec_octets(),
    {
        let v = self.value;
        let mut r: Vec<u8> = Vec::new();
        let mut i: usize = 0;
        while i < 16
            invariant
                i <= 16,
                r@.len() == i,
                forall|j: int| 0 <= j < i ==> r@[j] == self.spec_octet(j),
                v == self.value,
            decreases 16 - i,
        {
            let shift: u32 = (8 * (15 - i)) as u32;
            let byte: u8 = ((v >> shift) & 0xff) as u8;
            assert(byte == self.spec_octet(i as int));
            r.push(byte);
            i = i + 1;
        }
        proof {
            assert(r@ =~= self.spec_octets());
        }
        r
    }
}

/// An IPv4 network prefix: an address plus a prefix length of at most 32.
/// The address may have host bits set; membership tests mask them off,
/// while equality compares the address and the length exactly as given.
#[derive(Clone, Copy, PartialEq, Eq, Structural, Debug, Hash)]
pub struct Ipv4Prefix {
    pub addr: Ipv4Address,
    pub prefix_len: u8,
}

/// An IPv6 network prefix: an address plus a prefix length of at most 128.
#[derive(Clone, Copy, PartialEq, Eq, Structural, Debug, Hash)]
pub struct Ipv6Prefix {
    pub addr: Ipv6Address,
    pub prefix_len: u8,
}

impl Ipv4Prefix {
    pub open spec fn wf(self) -> bool {
        self.prefix_len <= 32
    }

    /// Accepts prefix lengths up to 32 and rejects all others.
    pub fn new(addr: Ipv4Address, prefix_len: u8) -> (r: Option<Self>)
        ensures
            prefix_len <= 32 ==> (r == Some(Ipv4Prefix { addr, prefix_len }) && r->0.wf()),
            prefix_len > 32 ==> r is None,
    {
        if prefix_len <= 32 {
            Some(Ipv4Prefix { addr, prefix_len })
        } else {
            None
        }
    }

    pub fn addr(&self) -> (r: Ipv4Address)
        ensures
            r == self.addr,
    {
        self.addr
    }

    pub fn prefix_len(&self) -> (r: u8)
        ensures
            r == self.prefix_len,
    {
        self.prefix_len
    }

    /// Whether `a` lies in this prefix: the first `prefix_len` bits agree.
    pub open spec fn spec_contains(self, a: Ipv4Address) -> bool {
        if self.prefix_len == 0 {
            true
        } else {
            (a.value >> ((32 - self.prefix_len) as u32)) == (self.addr.value >> ((32
                - self.prefix_len) as u32))
        }
    }

    pub fn contains(&self, a: Ipv4Address) -> (r: bool)
        requires
            self.wf(),
        ensures
            r == self.spec_contains(a),
    {
        if self.prefix_len == 0 {
            true
        } else {
            let shift: u32 = (32 - self.prefix_len) as u32;
            (a.value >> shift) == (self.addr.value >> shift)
        }
    }

    /// The broadcast address: every host bit set. For a /32 this is the
    /// address itself.
    pub open spec fn spec_broadcast(self) -> Ipv4Address {
        if self.prefix_len >= 32 {
            self.addr
        } else {
            Ipv4Address { value: self.addr.value | (0xffff_ffffu32 >> (self.prefix_len as u32)) }
        }
    }

    pub fn broadcast(&self) -> (r: Ipv4Address)
        ensures
            r == self.spec_broadcast(),
            self.prefix_len == 32 ==> r == self.addr,
    {
        if self.prefix_len >= 32 {
            self.addr
        } else {
            Ipv4Address { value: self.addr.value | (0xffff_ffffu32 >> (self.prefix_len as u32)) }
        }
    }
}

impl Ipv6Prefix {
    pub open spec fn wf(self) -> bool {
        self.prefix_len <= 128
    }

    /// Accepts prefix lengths up to 128 and rejects all others.
    pub fn new(addr: Ipv6Address, prefix_len: u8) -> (r: Option<Self>)
        ensures
            prefix_len <= 128 ==> (r == Some(Ipv6Prefix { addr, prefix_len }) && r->0.wf()),
            prefix_len > 128 ==> r is None,
    {
        if prefix_len <= 128 {
            Some(Ipv6Prefix { addr, prefix_len })
        } else {
            None
        }
    }

    pub fn addr(&self) -> (r: Ipv6Address)
        ensures
            r == self.addr,
    {
        self.addr
    }

    pub fn prefix_len(&self) -> (r: u8)
        ensures
            r == self.prefix_len,
    {
        self.prefix_len
    }

    /// Whether `a` lies in this prefix: the first `prefix_len` bits agree.
    pub open spec fn spec_contains(self, a: Ipv6Address) -> bool {
        if self.prefix_len == 0 {
            true
        } else {
            (a.value >> ((128 - self.prefix_len) as u32)) == (self.addr.value >> ((128
                - self.prefix_len) as u32))
        }
    }

    pub fn contains(&self, a: Ipv6Address) -> (r: bool)
        requires
            self.wf(),
        ensures
            r == self.spec_contains(a),
    {
        if self.prefix_len == 0 {
            true
        } else {
            let shift: u32 = (128 - self.prefix_len) as u32;
            (a.value >> shift) == (self.addr.value >> shift)
        }
    }
}

/// A fixed six-byte MAC address value.
#[derive(Clone, Copy, PartialEq, Eq, PartialOrd, Ord, Debug, Hash)]
pub struct MacAddr {
    pub inner: [u8; 6],
}

impl MacAddr {
    pub fn new(inner: [u8; 6]) -> (r: Self)
        ensures
            r.inner@ == inner@,
    {
        MacAddr { inner }
    }
}

impl Default for MacAddr {
    /// The all-zero MAC address.
    fn default() -> (r: Self)
        ensures
            r.inner@ =~= Seq::new(6, |i: int| 0u8),
    {
        MacAddr { inner: [0; 6] }
    }
}

} // verus!
