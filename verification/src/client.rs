//! The top-level [`Erc8183`] client for the Agentic Commerce Protocol.

use vstd::prelude::*;

use crate::error::SdkError;
use crate::job::JobHandle;
use crate::networks::Network;
use crate::primitives::Address;

verus! {

/// The main client for interacting with the ERC-8183 Agentic Commerce Protocol.
///
/// `Erc8183` is generic over the RPC provider it carries, which it hands to
/// every [`JobHandle`] it creates. It knows the address of the contract once
/// it is configured with a network or an address.
#[derive(Debug, Clone)]
pub struct Erc8183<P> {
    provider: P,
    contract_address: Option<Address>,
}

impl<P> Erc8183<P> {
    /// The provider the client carries.
    pub closed spec fn spec_provider(&self) -> P {
        self.provider
    }

    /// The configured contract address, if any.
    pub closed spec fn spec_contract_address(&self) -> Option<Address> {
        self.contract_address
    }

    /// Create a new client wrapping the given provider, with no contract
    /// address configured yet.
    pub fn new(provider: P) -> (r: Erc8183<P>)
        ensures
            r.spec_provider() == provider,
            r.spec_contract_address().is_none(),
    {
        Erc8183 { provider, contract_address: None }
    }

    /// Configure the contract address from a pre-defined [`Network`].
    pub fn with_network(self, network: Network) -> (r: Erc8183<P>)
        ensures
            r.spec_provider() == self.spec_provider(),
            r.spec_contract_address() matches Some(a) && a.0@ == crate::networks::deployment_bytes(
                network,
            ),
    {
        Erc8183 { provider: self.provider, contract_address: Some(network.address()) }
    }

    /// Set a custom `AgenticCommerce` contract address.
    pub fn with_address(self, address: Address) -> (r: Erc8183<P>)
        ensures
            r.spec_provider() == self.spec_provider(),
            r.spec_contract_address() == Some(address),
    {
        Erc8183 { provider: self.provider, contract_address: Some(address) }
    }

    /// Get a handle to the Agentic Commerce contract for job operations.
    ///
    /// Returns [`SdkError::ContractNotConfigured`] if the contract address has
    /// not been set.
    pub fn job(&self) -> (r: Result<JobHandle<&P>, SdkError>)
        ensures
            match self.spec_contract_address() {
                Some(a) => r matches Ok(h) && h.spec_contract_address() == a && *h.spec_provider()
                    == self.spec_provider(),
                None => r matches Err(SdkError::ContractNotConfigured),
            },
    {
        match self.contract_address {
            Some(address) => Ok(JobHandle::new(&self.provider, address)),
            None => Err(SdkError::ContractNotConfigured),
        }
    }

    /// Get a reference to the underlying provider.
    pub fn provider(&self) -> (r: &P)
        ensures
            *r == self.spec_provider(),
    {
        &self.provider
    }

    /// Consume this client and return the underlying provider.
    pub fn into_provider(self) -> (r: P)
        ensures
            r == self.spec_provider(),
    {
        self.provider
    }

    /// Get the configured contract address, if any.
    pub fn contract_address(&self) -> (r: Option<Address>)
        ensures
            r == self.spec_contract_address(),
    {
        self.contract_address
    }
}

} // verus!
