//! Socket endpoints as plain values: an IP address held as raw octets plus a
//! 16-bit port, the shape in which every other module reads addresses.

use vstd::prelude::*;

verus! {

broadcast use vstd::array::group_array_axioms;

/// An IP address held as raw octets in network order: four octets for a v4
/// address, sixteen for a v6 address.
#[derive(Clone, Copy, Debug, PartialEq, Eq)]
pub enum IpAddress {
    V4([u8; 4]),
    V6([u8; 16]),
}

impl IpAddress {
    /// The raw octets of the address, in network order.
    pub open spec fn octets(self) -> Seq<u8> {
        match self {
            IpAddress::V4(o) => o@,
            IpAddress::V6(o) => o@,
        }
    }

    pub open spec fn spec_is_v4(self) -> bool {
        self is V4
    }

    /// A loopback address: any 127.x.x.x for v4, `::1` for v6.
    pub open spec fn spec_is_loopback(self) -> bool {
        match self {
            IpAddress::V4(o) => o@[0] == 127,
            IpAddress::V6(o) => (forall|i: int| 0 <= i < 15 ==> o@[i] == 0) && o@[15] == 1,
        }
    }

    pub fn is_v4(&self) -> (r: bool)
        ensures
            r == self.spec_is_v4(),
    {
        match self {
            IpAddress::V4(_) => true,
            IpAddress::V6(_) => false,
        }
    }

    pub fn is_loopback(&self) -> (r: bool)
        ensures
            r == self.spec_is_loopback(),
    {
        match self {
            IpAddress::V4(o) => o[0] == 127,
            IpAddress::V6(o) => {
                let mut i: usize = 0;
                let mut all_zero = true;
                while i < 15
                    invariant
                        0 <= i <= 15,
                        all_zero == (forall|j: int| 0 <= j < i ==> o@[j] == 0),
                    decreases 15 - i,
                {
                    if o[i] != 0 {
                        all_zero = false;
                    }
                    i = i + 1;
                }
                all_zero && o[15] == 1
            },
        }
    }

    /// Octet-by-octet equality test, usable from verified code.
    pub fn same_as(&self, other: &IpAddress) -> (r: bool)
        ensures
            r == (*self == *other),
    {
        match (self, other) {
            (IpAddress::V4(a), IpAddress::V4(b)) => {
                let mut i: usize = 0;
                let mut eq = true;
                while i < 4
                    invariant
                        0 <= i <= 4,
                        eq == (forall|j: int| 0 <= j < i ==> a@[j] == b@[j]),
                    decreases 4 - i,
                {
                    if a[i] != b[i] {
                        eq = false;
                    }
                    i = i + 1;
                }
                proof {
                    if eq {
                        assert(*a =~= *b);
                    }
                }
                eq
            },
            (IpAddress::V6(a), IpAddress::V6(b)) => {
                let mut i: usize = 0;
                let mut eq = true;
                while i < 16
                    invariant
                        0 <= i <= 16,
                        eq == (forall|j: int| 0 <= j < i ==> a@[j] == b@[j]),
                    decreases 16 - i,
                {
                    if a[i] != b[i] {
                        eq = false;
                    }
                    i = i + 1;
                }
                proof {
                    if eq {
                        assert(*a =~= *b);
                    }
                }
                eq
            },
            (IpAddress::V4(_), IpAddress::V6(_)) => false,
            (IpAddress::V6(_), IpAddress::V4(_)) => false,
        }
    }
}

/// An IP address plus a 16-bit port: an immutable value with copy semantics.
#[derive(Clone, Copy, Debug, PartialEq, Eq)]
pub struct SocketEndpoint {
    pub ip: IpAddress,
    pub port: u16,
}

impl SocketEndpoint {
    /// The all-zero v4 endpoint `0.0.0.0:0`, reported when a reply carried no
    /// relay header.
    pub open spec fn spec_zero() -> SocketEndpoint {
        SocketEndpoint { ip: IpAddress::V4([0u8, 0u8, 0u8, 0u8]), port: 0u16 }
    }

    pub fn zero() -> (r: SocketEndpoint)
        ensures
            r == SocketEndpoint::spec_zero(),
    {
        SocketEndpoint { ip: IpAddress::V4([0u8, 0u8, 0u8, 0u8]), port: 0 }
    }

}

} // verus!
