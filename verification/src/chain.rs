//! The chain identifier and the on-chain record that holds it.

use vstd::prelude::*;

verus! {

/// The chains that have a name.
#[derive(Clone, Copy, Debug, PartialEq, Eq, Structural)]
pub enum NamedChain {
    Mainnet,
    Testnet,
    Devnet,
    Testing,
    Premainnet,
}

impl NamedChain {
    /// The identifier of the named chain.
    pub open spec fn spec_id(self) -> u8 {
        match self {
            NamedChain::Mainnet => 1,
            NamedChain::Testnet => 2,
            NamedChain::Devnet => 3,
            NamedChain::Testing => 4,
            NamedChain::Premainnet => 5,
        }
    }

    /// The identifier of the named chain.
    #[verifier::when_used_as_spec(spec_id)]
    pub fn id(self) -> (id: u8)
        ensures
            id == self.spec_id(),
    {
        match self {
            NamedChain::Mainnet => 1,
            NamedChain::Testnet => 2,
            NamedChain::Devnet => 3,
            NamedChain::Testing => 4,
            NamedChain::Premainnet => 5,
        }
    }
}

/// The identifier of a chain: one unsigned byte.
#[derive(Clone, Copy, Debug, PartialEq, Eq, Structural)]
pub struct ChainId {
    pub id: u8,
}

impl ChainId {
    /// The chain with the given identifier.
    pub fn new(id: u8) -> (chain: ChainId)
        ensures
            chain.id == id,
    {
        ChainId { id }
    }

    /// The chain that tests run on.
    pub fn test() -> (chain: ChainId)
        ensures
            chain.id == NamedChain::Testing.spec_id(),
    {
        ChainId { id: NamedChain::Testing.id() }
    }

    /// The identifier as a byte.
    pub fn id(&self) -> (id: u8)
        ensures
            id == self.id,
    {
        self.id
    }
}

/// The on-chain configuration record that names the chain.
#[derive(Clone, Copy, Debug, PartialEq, Eq, Structural)]
pub struct ChainIdResource {
    pub chain_id: ChainId,
}

impl ChainIdResource {
    /// The chain that the record names.
    pub fn chain_id(&self) -> (chain: ChainId)
        ensures
            chain == self.chain_id,
    {
        self.chain_id
    }
}

/// The record that a stored value holds: the value is the record's one
/// byte, the chain identifier, and any other value holds none.
pub open spec fn chain_resource_of(value: Seq<u8>) -> Option<ChainIdResource> {
    if value.len() == 1 {
        Some(ChainIdResource { chain_id: ChainId { id: value[0] } })
    } else {
        None
    }
}

} // verus!
