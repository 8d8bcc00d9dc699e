//! Plain-value identities shared across the node.
//!
//! A name in the network's address space, a public key and a message id are
//! carried here as single machine words: the protocol only ever compares them
//! and tests prefix membership, so one word holds everything the logic reads.

use vstd::prelude::*;

verus! {

/// A name in the section address space: chunk addresses, account addresses
/// and node names all live in this space.
#[derive(Clone, Copy, PartialEq, Eq, Structural, Debug, Hash)]
pub struct XorName(pub u64);

/// A public key, reduced to the identity it denotes.
#[derive(Clone, Copy, PartialEq, Eq, Structural, Debug, Hash)]
pub struct PublicKey(pub u64);

/// A secret signing key, reduced to the identity of its holder.
#[derive(Clone, Copy, PartialEq, Eq, Structural, Debug)]
pub struct SecretKey(pub u64);

/// Correlates a response to its request and detects duplicate delivery.
#[derive(Clone, Copy, PartialEq, Eq, Structural, Debug, Hash)]
pub struct MessageId(pub u64);

/// An amount of money, in indivisible units.
pub type Money = u64;

/// An address-space prefix: the high `len` bits of `bits` decide membership.
#[derive(Clone, Copy, PartialEq, Eq, Structural, Debug)]
pub struct Prefix {
    pub bits: u64,
    pub len: u64,
}

impl Prefix {
    pub open spec fn wf(self) -> bool {
        self.len <= 64
    }

    /// A name matches when it agrees with the prefix on the high `len` bits.
    pub open spec fn spec_matches(self, name: u64) -> bool {
        self.len == 0 || ((name ^ self.bits) >> ((64 - self.len) as u64)) == 0
    }

    pub fn matches(&self, name: XorName) -> (r: bool)
        requires
            self.wf(),
        ensures
            r == self.spec_matches(name.0),
    {
        if self.len == 0 {
            true
        } else {
            ((name.0 ^ self.bits) >> (64 - self.len)) == 0
        }
    }
}

} // verus!
