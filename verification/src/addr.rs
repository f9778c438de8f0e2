//! The address codec: between an IP address and the family-tagged layout in
//! which the kernel takes and gives socket addresses.

use vstd::prelude::*;
use crate::abi::Abi;

verus! {

/// The IP version a socket speaks.
#[derive(Clone, Copy, Debug, PartialEq, Eq, Structural)]
pub enum Family {
    /// IPv4.
    V4,
    /// IPv6.
    V6,
}

impl Family {
    /// The number by which the platform names this family.
    pub open spec fn spec_domain(self, abi: &Abi) -> i32 {
        match self {
            Family::V4 => abi.af_inet,
            Family::V6 => abi.af_inet6,
        }
    }

    /// The family tag at the head of a native address of this family: the
    /// family's number, cut to the sixteen bits of a tag.
    pub open spec fn spec_tag(self, abi: &Abi) -> u16 {
        self.spec_domain(abi) as u16
    }

    /// How many octets an address of this family has.
    pub open spec fn width(self) -> usize {
        match self {
            Family::V4 => 4,
            Family::V6 => 16,
        }
    }

    /// Where the octets start in the data of a native address: behind the
    /// port for IPv4, behind the port and the flow information for IPv6.
    pub open spec fn offset(self) -> usize {
        match self {
            Family::V4 => 2,
            Family::V6 => 6,
        }
    }

    /// The length in bytes of a native address of this family, tag included.
    pub open spec fn spec_native_len(self) -> u32 {
        match self {
            Family::V4 => 16,
            Family::V6 => 28,
        }
    }

    /// The number by which the platform names this family.
    #[verifier::when_used_as_spec(spec_domain)]
    pub fn domain(self, abi: &Abi) -> (number: i32)
        ensures
            number == self.spec_domain(abi),
    {
        match self {
            Family::V4 => abi.af_inet,
            Family::V6 => abi.af_inet6,
        }
    }

    /// The family tag at the head of a native address of this family.
    #[verifier::when_used_as_spec(spec_tag)]
    pub fn tag(self, abi: &Abi) -> (tag: u16)
        ensures
            tag == self.spec_tag(abi),
    {
        #[verifier::truncate]
        (self.domain(abi) as u16)
    }

    /// The length in bytes of a native address of this family, tag included.
    #[verifier::when_used_as_spec(spec_native_len)]
    pub fn native_len(self) -> (len: u32)
        ensures
            len == self.spec_native_len(),
    {
        match self {
            Family::V4 => 16,
            Family::V6 => 28,
        }
    }
}

/// An IP address, by its octets in network order.
#[derive(Clone, Copy, Debug, PartialEq, Eq)]
pub enum Address {
    /// An IPv4 address.
    V4([u8; 4]),
    /// An IPv6 address.
    V6([u8; 16]),
}

impl Address {
    /// The family of the address.
    pub open spec fn spec_family(&self) -> Family {
        match self {
            Address::V4(_) => Family::V4,
            Address::V6(_) => Family::V6,
        }
    }

    /// The octets of the address in network order: 4 or 16 of them.
    pub open spec fn octets(&self) -> Seq<u8> {
        match self {
            Address::V4(o) => o@,
            Address::V6(o) => o@,
        }
    }

    /// The family of the address.
    #[verifier::when_used_as_spec(spec_family)]
    pub fn family(&self) -> (family: Family)
        ensures
            family == self.spec_family(),
    {
        match self {
            Address::V4(_) => Family::V4,
            Address::V6(_) => Family::V6,
        }
    }

    /// An address is its family and its octets: two addresses that agree on
    /// both are the same address.
    pub proof fn lemma_same_octets(a: Address, b: Address)
        requires
            a.family() == b.family(),
            a.octets() == b.octets(),
        ensures
            a == b,
    {
        match (a, b) {
            (Address::V4(x), Address::V4(y)) => {
                assert(x =~= y);
            },
            (Address::V6(x), Address::V6(y)) => {
                assert(x =~= y);
            },
            _ => {},
        }
    }
}

/// A socket address as the kernel lays it out: the family tag, then the
/// bytes that follow it. For IPv4 these are the port, the four octets and
/// padding; for IPv6 the port, the flow information, the sixteen octets and
/// the scope.
#[derive(Clone, Copy, Debug, PartialEq, Eq)]
pub struct SockAddr {
    /// The family tag.
    pub family: u16,
    /// The bytes behind the tag.
    pub data: [u8; 26],
}

/// The data of the native address that holds `octets`: the octets at the
/// family's offset, and zero in every other byte.
pub open spec fn native_data(family: Family, octets: Seq<u8>) -> Seq<u8> {
    Seq::new(
        26,
        |i: int|
            if family.offset() <= i < family.offset() + family.width() {
                octets[i - family.offset()]
            } else {
                0u8
            },
    )
}

/// `native` is the encoding of `addr`.
pub open spec fn encodes(abi: &Abi, addr: &Address, native: &SockAddr) -> bool {
    &&& native.family == addr.spec_family().spec_tag(abi)
    &&& native.data@ == native_data(addr.spec_family(), addr.octets())
}

/// The family that a native address claims by its tag, if it is one of the
/// two.
pub open spec fn tagged_family(abi: &Abi, native: &SockAddr) -> Option<Family> {
    if native.family as i32 == abi.af_inet {
        Some(Family::V4)
    } else if native.family as i32 == abi.af_inet6 {
        Some(Family::V6)
    } else {
        None
    }
}

/// `decoded` is what `native` decodes to: nothing where the tag names
/// neither family, else the address of the tagged family whose octets are
/// the ones at that family's offset.
pub open spec fn decodes(abi: &Abi, native: &SockAddr, decoded: Option<Address>) -> bool {
    match tagged_family(abi, native) {
        None => decoded is None,
        Some(family) => {
            &&& decoded matches Some(addr)
            &&& addr.spec_family() == family
            &&& addr.octets() == native.data@.subrange(
                family.offset() as int,
                family.offset() + family.width(),
            )
        },
    }
}

/// Lays an address out as the kernel takes it. Port, flow information and
/// scope are zero: these sockets are addressed by IP alone. The address is
/// taken as it is, with no test of what it names.
pub fn encode(abi: &Abi, addr: &Address) -> (native: SockAddr)
    ensures
        encodes(abi, addr, &native),
{
    let family = addr.family();
    let mut data = [0u8; 26];
    match addr {
        Address::V4(octets) => {
            let mut i: usize = 0;
            while i < 4
                invariant
                    i <= 4,
                    forall|k: int|
                        0 <= k < 26 ==> data@[k] == if 2 <= k < 2 + i {
                            octets@[k - 2]
                        } else {
                            0u8
                        },
                decreases 4 - i,
            {
                data[2 + i] = octets[i];
                i += 1;
            }
        },
        Address::V6(octets) => {
            let mut i: usize = 0;
            while i < 16
                invariant
                    i <= 16,
                    forall|k: int|
                        0 <= k < 26 ==> data@[k] == if 6 <= k < 6 + i {
                            octets@[k - 6]
                        } else {
                            0u8
                        },
                decreases 16 - i,
            {
                data[6 + i] = octets[i];
                i += 1;
            }
        },
    }
    assert(data@ =~= native_data(addr.spec_family(), addr.octets()));
    SockAddr { family: family.tag(abi), data }
}

/// Reads the address out of a native socket address. The tag decides the
/// family; a tag that names neither family gives `None`.
pub fn decode(abi: &Abi, native: &SockAddr) -> (decoded: Option<Address>)
    ensures
        decodes(abi, native, decoded),
{
    let tag = native.family as i32;
    if tag == abi.af_inet {
        let mut octets = [0u8; 4];
        let mut i: usize = 0;
        while i < 4
            invariant
                i <= 4,
                forall|k: int| 0 <= k < i ==> octets@[k] == native.data@[2 + k],
            decreases 4 - i,
        {
            octets[i] = native.data[2 + i];
            i += 1;
        }
        assert(octets@ =~= native.data@.subrange(2, 6));
        Some(Address::V4(octets))
    } else if tag == abi.af_inet6 {
        let mut octets = [0u8; 16];
        let mut i: usize = 0;
        while i < 16
            invariant
                i <= 16,
                forall|k: int| 0 <= k < i ==> octets@[k] == native.data@[6 + k],
            decreases 16 - i,
        {
            octets[i] = native.data[6 + i];
            i += 1;
        }
        assert(octets@ =~= native.data@.subrange(6, 22));
        Some(Address::V6(octets))
    } else {
        None
    }
}

/// Decoding undoes encoding: whatever table tells the two families apart,
/// the encoding of an address decodes to that address and to no other.
pub proof fn lemma_decode_encode(abi: Abi, addr: Address, native: SockAddr, decoded: Option<Address>)
    requires
        abi.wf(),
        encodes(&abi, &addr, &native),
        decodes(&abi, &native, decoded),
    ensures
        decoded == Some(addr),
{
    let family = addr.spec_family();
    assert(native.family as i32 == family.spec_domain(&abi));
    assert(tagged_family(&abi, &native) == Some(family));
    let found = decoded->Some_0;
    assert(found.octets() =~= addr.octets());
    Address::lemma_same_octets(found, addr);
}

} // verus!
