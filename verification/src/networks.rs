//! Pre-configured network definitions with known contract addresses.
//!
//! Each [`Network`] variant represents a chain where the ERC-8183
//! `AgenticCommerce` contract has been officially deployed. Only networks with
//! live deployments are listed; for other deployments configure the client
//! with an address directly.

use vstd::prelude::*;
use vstd::std_specs::convert::TryFromSpec;
use vstd::string::StringExecFns;

use crate::error::SdkError;
use crate::primitives::{eip55_text, Address};

verus! {

const MONAD_MAINNET_RPC: &'static str = "https://rpc.monad.xyz";

const MONAD_MAINNET_EXPLORER: &'static str = "https://monad.socialscan.io";

/// Pre-defined network configurations for ERC-8183 deployments.
#[derive(Debug, Clone, Copy, PartialEq, Eq, Hash, Structural)]
#[non_exhaustive]
pub enum Network {
    /// Monad Mainnet (chain ID 143).
    MonadMainnet,
}

/// The bytes of the `AgenticCommerce` deployment on a network.
pub open spec fn deployment_bytes(n: Network) -> Seq<u8> {
    match n {
        Network::MonadMainnet => seq![
            0xE8u8, 0xc4u8, 0xFFu8, 0xb4u8, 0xA6u8, 0xF7u8, 0xB8u8, 0x04u8, 0x0au8, 0x7Au8,
            0xE3u8, 0x9Fu8, 0x66u8, 0x51u8, 0x29u8, 0x0Eu8, 0x06u8, 0xA4u8, 0x07u8, 0x25u8,
        ],
    }
}

/// The EIP-155 chain ID of a network.
pub open spec fn network_chain_id(n: Network) -> u64 {
    match n {
        Network::MonadMainnet => 143,
    }
}

/// The public RPC endpoint of a network.
pub open spec fn network_rpc_url(n: Network) -> Seq<char> {
    match n {
        Network::MonadMainnet => "https://rpc.monad.xyz"@,
    }
}

/// The block explorer base URL of a network.
pub open spec fn network_explorer_base(n: Network) -> Seq<char> {
    match n {
        Network::MonadMainnet => "https://monad.socialscan.io"@,
    }
}

/// The known network with chain ID `chain_id`, if there is one.
pub open spec fn network_of_chain(chain_id: u64) -> Option<Network> {
    if chain_id == 143 {
        Some(Network::MonadMainnet)
    } else {
        None
    }
}

/// Every known network, in the order of [`Network::ALL`].
pub open spec fn all_networks() -> Seq<Network> {
    seq![Network::MonadMainnet]
}

/// What every known network is: Monad Mainnet, chain 143, served at
/// `https://rpc.monad.xyz`, explored at `https://monad.socialscan.io`, with
/// the `AgenticCommerce` deployment at
/// `0xE8c4FFb4A6F7B8040a7AE39F6651290E06A40725`.
pub proof fn lemma_network_facts(n: Network)
    ensures
        n == Network::MonadMainnet,
        network_chain_id(n) == 143,
        network_rpc_url(n) == "https://rpc.monad.xyz"@,
        network_explorer_base(n) == "https://monad.socialscan.io"@,
        deployment_bytes(n) == seq![
            0xE8u8, 0xc4u8, 0xFFu8, 0xb4u8, 0xA6u8, 0xF7u8, 0xB8u8, 0x04u8, 0x0au8, 0x7Au8,
            0xE3u8, 0x9Fu8, 0x66u8, 0x51u8, 0x29u8, 0x0Eu8, 0x06u8, 0xA4u8, 0x07u8, 0x25u8,
        ],
{
}

/// A chain ID identifies its network: `Network::try_from` of a network's own
/// chain ID gives the network back, a lookup that succeeds gives a network
/// with that chain ID, one that fails reports the chain ID it was given, and
/// the list of all networks holds every network exactly once.
pub proof fn lemma_chain_id_roundtrip(n: Network, chain_id: u64)
    ensures
        <Network as TryFromSpec<u64>>::try_from_spec(network_chain_id(n)) == Ok::<Network, SdkError>(n),
        network_of_chain(network_chain_id(n)) == Some(n),
        <Network as TryFromSpec<u64>>::try_from_spec(chain_id) matches Ok(m) ==> network_chain_id(m) == chain_id,
        <Network as TryFromSpec<u64>>::try_from_spec(chain_id) matches Err(e) ==> (e matches SdkError::UnknownChainId { chain_id: c } && c == chain_id),
        all_networks().contains(n),
        all_networks().no_duplicates(),
{
    assert(all_networks()[0] == n);
}

impl Network {
    /// All known ERC-8183 network variants.
    pub const ALL: &'static [Network; 1] = &[Network::MonadMainnet];

    /// Returns the deployed `AgenticCommerce` contract address for this network.
    pub fn address(self) -> (r: Address)
        ensures
            r.0@ == deployment_bytes(self),
    {
        match self {
            Network::MonadMainnet => {
                let r = Address(
                    [
                        0xE8, 0xc4, 0xFF, 0xb4, 0xA6, 0xF7, 0xB8, 0x04, 0x0a, 0x7A, 0xE3, 0x9F,
                        0x66, 0x51, 0x29, 0x0E, 0x06, 0xA4, 0x07, 0x25,
                    ],
                );
                assert(r.0@ =~= deployment_bytes(self));
                r
            },
        }
    }

    /// Returns the EIP-155 chain ID for this network.
    pub fn chain_id(self) -> (r: u64)
        ensures
            r == network_chain_id(self),
    {
        match self {
            Network::MonadMainnet => 143,
        }
    }

    /// Returns the public RPC endpoint URL for this network.
    pub fn rpc_url(self) -> (r: &'static str)
        ensures
            r@ == network_rpc_url(self),
            "https://"@.is_prefix_of(r@),
    {
        proof {
            reveal_strlit("https://");
            reveal_strlit("https://rpc.monad.xyz");
        }
        match self {
            Network::MonadMainnet => MONAD_MAINNET_RPC,
        }
    }

    /// Returns the block explorer base URL for this network.
    pub fn explorer_base_url(self) -> (r: &'static str)
        ensures
            r@ == network_explorer_base(self),
            "https://"@.is_prefix_of(r@),
    {
        proof {
            reveal_strlit("https://");
            reveal_strlit("https://monad.socialscan.io");
        }
        match self {
            Network::MonadMainnet => MONAD_MAINNET_EXPLORER,
        }
    }

    /// Returns a block explorer URL for a given contract address:
    /// `<explorer base>/address/<checksummed address>`.
    pub fn explorer_url(self, address: Address) -> (r: String)
        ensures
            r@ == network_explorer_base(self) + "/address/"@ + eip55_text(address.0@),
    {
        let mut s = self.explorer_base_url().to_owned();
        s.append("/address/");
        s.append(address.to_string().as_str());
        s
    }

    /// The network's name, as its `Display` prints it.
    pub fn to_string(&self) -> (r: String)
        ensures
            r@ == (match *self {
                Network::MonadMainnet => "Monad Mainnet"@,
            }),
    {
        match self {
            Network::MonadMainnet => "Monad Mainnet".to_owned(),
        }
    }
}

impl TryFrom<u64> for Network {
    type Error = SdkError;

    /// Look up a [`Network`] by its EIP-155 chain ID.
    ///
    /// Returns [`SdkError::UnknownChainId`] if the chain ID is not a known
    /// ERC-8183 deployment.
    fn try_from(chain_id: u64) -> (r: Result<Network, SdkError>) {
        let all = Network::ALL;
        let mut i: usize = 0;
        while i < all.len()
            invariant
                all@ == all_networks(),
                i <= all@.len(),
                forall|j: int| 0 <= j < i ==> network_chain_id(#[trigger] all@[j]) != chain_id,
            decreases all@.len() - i,
        {
            if all[i].chain_id() == chain_id {
                return Ok(all[i]);
            }
            i = i + 1;
        }
        Err(SdkError::UnknownChainId { chain_id })
    }
}

impl vstd::std_specs::convert::TryFromSpecImpl<u64> for Network {
    open spec fn obeys_try_from_spec() -> bool {
        true
    }

    open spec fn try_from_spec(chain_id: u64) -> Result<Network, SdkError> {
        match network_of_chain(chain_id) {
            Some(n) => Ok(n),
            None => Err(SdkError::UnknownChainId { chain_id }),
        }
    }
}

} // verus!
