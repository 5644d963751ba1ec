//! The 4-byte IPv4 address value that the service advertises.

use vstd::prelude::*;

verus! {

/// A 4-byte IPv4 address, stored as its four octets in textual order
/// (`o0.o1.o2.o3`). Immutable once resolved.
#[derive(Clone, Copy, PartialEq, Eq, Structural, Debug)]
pub struct NetworkAddress {
    pub o0: u8,
    pub o1: u8,
    pub o2: u8,
    pub o3: u8,
}

impl NetworkAddress {
    /// Builds an address from its four octets, most significant first.
    pub fn new(o0: u8, o1: u8, o2: u8, o3: u8) -> (a: NetworkAddress)
        ensures
            a.o0 == o0 && a.o1 == o1 && a.o2 == o2 && a.o3 == o3,
    {
        NetworkAddress { o0, o1, o2, o3 }
    }

    /// The four octets, most significant first.
    pub fn octets(&self) -> (r: [u8; 4])
        ensures
            r@ == seq![self.o0, self.o1, self.o2, self.o3],
    {
        let r = [self.o0, self.o1, self.o2, self.o3];
        proof {
            assert(r@ =~= seq![self.o0, self.o1, self.o2, self.o3]);
        }
        r
    }
}

} // verus!
