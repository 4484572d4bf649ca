use vstd::prelude::*;

verus! {

/// A bitset selecting which categories of events the server should stream
/// over the connection.  The set is fixed when a shard is constructed;
/// changing it requires a fresh connection.
#[derive(Clone, Copy, PartialEq, Eq, Structural, Debug)]
pub struct GatewayIntents {
    pub bits: u64,
}

impl GatewayIntents {
    /// The empty selection: no optional event categories.
    pub fn empty() -> (r: GatewayIntents)
        ensures
            r.bits == 0,
    {
        GatewayIntents { bits: 0 }
    }

    /// A selection made from a raw bitset value.
    pub fn from_bits(bits: u64) -> (r: GatewayIntents)
        ensures
            r.bits == bits,
    {
        GatewayIntents { bits }
    }

    /// The union of two selections.
    pub fn union(self, other: GatewayIntents) -> (r: GatewayIntents)
        ensures
            r.bits == self.bits | other.bits,
    {
        GatewayIntents { bits: self.bits | other.bits }
    }

    /// Whether every category of `other` is also selected by `self`.
    pub fn contains(self, other: GatewayIntents) -> (r: bool)
        ensures
            r == (self.bits & other.bits == other.bits),
    {
        self.bits & other.bits == other.bits
    }
}

} // verus!
