//! Verified core of the ERC-8183 Agentic Commerce Protocol SDK.
//!
//! ERC-8183 defines a job with an escrowed budget, six states
//! (`Open → Funded → Submitted → Completed | Rejected | Expired`) and an
//! evaluator who alone may mark the job completed. This crate holds the
//! decisions of the SDK: job status decoding, revert selector decoding, network
//! lookup, the client's contract configuration and the interpretation of what
//! the contract returns. Sending transactions and talking to an RPC endpoint
//! happen in the caller's transport layer.

pub mod client;
pub mod error;
pub mod hooks;
pub mod job;
pub mod networks;
pub mod primitives;
pub mod types;

pub use client::Erc8183;
pub use error::SdkError;
pub use networks::Network;
pub use primitives::{Address, B256, U256};
pub use types::JobStatus;
