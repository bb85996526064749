//! Network addresses.

use vstd::prelude::*;

verus! {

/// An IP address of either family, held as the number its octets spell in
/// network order.
#[derive(Clone, Copy, Debug, PartialEq, Eq, Structural)]
pub enum IpAddr {
    V4(u32),
    V6(u128),
}

impl IpAddr {
    /// The number of bits of an address of this family, which is also the
    /// longest prefix a network of this family can have.
    pub open spec fn bits(self) -> nat {
        match self {
            IpAddr::V4(_) => 32,
            IpAddr::V6(_) => 128,
        }
    }

    pub fn is_ipv4(&self) -> (v4: bool)
        ensures
            v4 == (*self is V4),
    {
        match self {
            IpAddr::V4(_) => true,
            IpAddr::V6(_) => false,
        }
    }

    pub fn is_ipv6(&self) -> (v6: bool)
        ensures
            v6 == (*self is V6),
    {
        match self {
            IpAddr::V4(_) => false,
            IpAddr::V6(_) => true,
        }
    }
}

/// The prefix length given for an address exceeds the address's bit count.
#[derive(Clone, Copy, Debug, PartialEq, Eq, Structural)]
pub struct InvalidCidrError;

/// An address together with the prefix length of its network. The prefix
/// never exceeds the bit count of the address family.
#[derive(Clone, Copy, Debug, PartialEq, Eq)]
pub struct CidrAddress {
    addr: IpAddr,
    mask: usize,
}

impl CidrAddress {
    #[verifier::type_invariant]
    pub closed spec fn wf(self) -> bool {
        self.mask <= self.addr.bits()
    }

    pub closed spec fn spec_addr(&self) -> IpAddr {
        self.addr
    }

    pub closed spec fn spec_mask(&self) -> usize {
        self.mask
    }

    /// Pairs an address with a prefix length, if the prefix fits the family:
    /// at most 32 bits for IPv4, at most 128 for IPv6.
    pub fn new(addr: IpAddr, mask: usize) -> (cidr: Result<CidrAddress, InvalidCidrError>)
        ensures
            mask <= addr.bits() <==> cidr is Ok,
            cidr matches Ok(c) ==> c.spec_addr() == addr && c.spec_mask() == mask,
    {
        let limit: usize = if addr.is_ipv4() { 32 } else { 128 };
        if mask > limit {
            Err(InvalidCidrError)
        } else {
            Ok(CidrAddress { addr, mask })
        }
    }

    #[verifier::when_used_as_spec(spec_addr)]
    pub fn addr(&self) -> (addr: IpAddr)
        ensures
            addr == self.spec_addr(),
    {
        self.addr
    }

    #[verifier::when_used_as_spec(spec_mask)]
    pub fn mask(&self) -> (mask: usize)
        ensures
            mask == self.spec_mask(),
            mask <= self.spec_addr().bits(),
    {
        proof {
            use_type_invariant(self);
        }
        self.mask
    }
}

/// Pairs each address of a list with its prefix length. The list is taken
/// as a whole: one prefix that does not fit its address refuses it.
pub fn cidr_list(addresses: &Vec<(IpAddr, usize)>) -> (list: Result<
    Vec<CidrAddress>,
    InvalidCidrError,
>)
    ensures
        list is Ok <==> forall|i: int|
            0 <= i < addresses@.len() ==> (#[trigger] addresses@[i]).1 <= addresses@[i].0.bits(),
        list matches Ok(list) ==> {
            &&& list@.len() == addresses@.len()
            &&& forall|i: int|
                0 <= i < list@.len() ==> (#[trigger] list@[i]).spec_addr() == addresses@[i].0
                    && list@[i].spec_mask() == addresses@[i].1
        },
{
    let mut list: Vec<CidrAddress> = Vec::new();
    let mut i: usize = 0;
    while i < addresses.len()
        invariant
            i <= addresses@.len(),
            list@.len() == i,
            forall|k: int| 0 <= k < i ==> (#[trigger] addresses@[k]).1 <= addresses@[k].0.bits(),
            forall|k: int|
                0 <= k < i ==> (#[trigger] list@[k]).spec_addr() == addresses@[k].0
                    && list@[k].spec_mask() == addresses@[k].1,
        decreases addresses@.len() - i,
    {
        let (addr, mask) = addresses[i];
        match CidrAddress::new(addr, mask) {
            Ok(cidr) => list.push(cidr),
            Err(error) => {
                assert(!(addresses@[i as int].1 <= addresses@[i as int].0.bits()));
                return Err(error);
            },
        }
        i += 1;
    }
    Ok(list)
}

} // verus!
