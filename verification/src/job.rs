//! Job operations for the Agentic Commerce Protocol.
//!
//! A [`JobHandle`] pairs a provider with the address of an `AgenticCommerce`
//! contract. Jobs follow a strict state machine, enforced by the contract:
//!
//! ```text
//! Open → Funded → Submitted → Completed
//!   ↓       ↓         ↓      → Rejected
//!   Rejected Rejected  Rejected
//!            Expired   Expired
//! ```
//!
//! This module holds the decisions the handle makes about what the contract
//! returns; the calls themselves are made by the caller's transport layer.

use vstd::prelude::*;

use crate::error::SdkError;
use crate::primitives::{be_value, Address, U256};

verus! {

/// A handle for interacting with an ERC-8183 contract.
#[derive(Debug)]
pub struct JobHandle<P> {
    address: Address,
    provider: P,
}

impl<P> JobHandle<P> {
    /// The provider the handle sends its calls through.
    pub closed spec fn spec_provider(&self) -> P {
        self.provider
    }

    /// The contract address this handle points to.
    pub closed spec fn spec_contract_address(&self) -> Address {
        self.address
    }

    /// Create a new `JobHandle` from a provider and contract address.
    pub(crate) fn new(provider: P, address: Address) -> (r: JobHandle<P>)
        ensures
            r.spec_provider() == provider,
            r.spec_contract_address() == address,
    {
        JobHandle { address, provider }
    }

    /// Returns the contract address this handle points to.
    pub fn contract_address(&self) -> (r: Address)
        ensures
            r == self.spec_contract_address(),
    {
        self.address
    }

    /// The provider the handle sends its calls through.
    pub fn provider(&self) -> (r: &P)
        ensures
            *r == self.spec_provider(),
    {
        &self.provider
    }
}

/// One log of a transaction receipt: its topics and its data.
#[derive(Debug, Clone)]
pub struct EventLog {
    /// The indexed topics; the first is the event's signature hash.
    pub topics: Vec<[u8; 32]>,
    /// The ABI-encoded non-indexed fields.
    pub data: Vec<u8>,
}

/// The signature hash of the standard `JobCreated` event: Keccak-256 of
/// `JobCreated(uint256,address,address,address,uint256,address)`.
pub open spec fn job_created_topic() -> Seq<u8> {
    seq![
        0xb0u8, 0xf0u8, 0x23u8, 0x9bu8, 0xfdu8, 0xd9u8, 0x64u8, 0x53u8, 0xe2u8, 0x47u8, 0x33u8,
        0xe1u8, 0x8bu8, 0xfcu8, 0x24u8, 0xb7u8, 0x0du8, 0x8fu8, 0xadu8, 0xf1u8, 0x23u8, 0xddu8,
        0x97u8, 0x74u8, 0x73u8, 0x51u8, 0x8du8, 0xd5u8, 0x77u8, 0xeeu8, 0x79u8, 0xb9u8,
    ]
}

/// Whether a log decodes as `JobCreated(uint256 indexed jobId, address indexed
/// client, address indexed provider, address evaluator, uint256 expiredAt,
/// address hook)`: four topics, the first being the event's signature hash,
/// and at least the three words of the non-indexed fields as data.
pub open spec fn is_job_created(log: EventLog) -> bool {
    &&& log.topics@.len() == 4
    &&& log.topics@[0]@ == job_created_topic()
    &&& log.data@.len() >= 96
}

/// The `jobId` a `JobCreated` log carries: its second topic, big-endian.
pub open spec fn job_created_id(log: EventLog) -> nat {
    be_value(log.topics@[1]@)
}

/// Recognition of `JobCreated`: a log is the event exactly when it has four
/// topics, the first being the Keccak-256 hash of
/// `JobCreated(uint256,address,address,address,uint256,address)`
/// (`b0f0239b…77ee79b9`), and at least 96 bytes of data; what those data
/// words hold (evaluator, expiry, hook) plays no part. Its `jobId` is the
/// second topic read as a big-endian integer.
pub proof fn lemma_job_created_recognition(log: EventLog)
    ensures
        is_job_created(log) <==> (log.topics@.len() == 4 && log.topics@[0]@ == seq![
            0xb0u8, 0xf0u8, 0x23u8, 0x9bu8, 0xfdu8, 0xd9u8, 0x64u8, 0x53u8, 0xe2u8, 0x47u8, 0x33u8,
            0xe1u8, 0x8bu8, 0xfcu8, 0x24u8, 0xb7u8, 0x0du8, 0x8fu8, 0xadu8, 0xf1u8, 0x23u8, 0xddu8,
            0x97u8, 0x74u8, 0x73u8, 0x51u8, 0x8du8, 0xd5u8, 0x77u8, 0xeeu8, 0x79u8, 0xb9u8,
        ] && log.data@.len() >= 96),
        is_job_created(log) ==> job_created_id(log) == be_value(log.topics@[1]@),
        job_created_missing() == "JobCreated event not found in createJob receipt"@,
{
}

/// Decoding a `JobCreated` log looks at the topics and the data's length
/// only: two logs with the same topics and data of the same length are both
/// recognised or both not, and carry the same `jobId`.
pub proof fn lemma_job_created_ignores_data_words(a: EventLog, b: EventLog)
    requires
        a.topics@ == b.topics@,
        a.data@.len() == b.data@.len(),
    ensures
        is_job_created(a) == is_job_created(b),
        is_job_created(a) ==> job_created_id(a) == job_created_id(b),
{
    lemma_job_created_recognition(a);
    lemma_job_created_recognition(b);
}

/// Decode a log as the standard `JobCreated` event and return its `jobId`.
///
/// The data words are not inspected beyond their presence: the addresses and
/// expiry they hold are not needed and are read without validation.
pub fn decode_job_created(log: &EventLog) -> (r: Option<U256>)
    ensures
        r.is_some() == is_job_created(*log),
        r matches Some(id) ==> id.value() == job_created_id(*log),
{
    if log.topics.len() != 4 || log.data.len() < 96 {
        return None;
    }
    let sig: [u8; 32] = log.topics[0];
    let expected: [u8; 32] = [
        0xb0, 0xf0, 0x23, 0x9b, 0xfd, 0xd9, 0x64, 0x53, 0xe2, 0x47, 0x33, 0xe1, 0x8b, 0xfc, 0x24,
        0xb7, 0x0d, 0x8f, 0xad, 0xf1, 0x23, 0xdd, 0x97, 0x74, 0x73, 0x51, 0x8d, 0xd5, 0x77, 0xee,
        0x79, 0xb9,
    ];
    let mut k: usize = 0;
    while k < 32
        invariant
            k <= 32,
            sig@ == log.topics@[0]@,
            expected@ == job_created_topic(),
            forall|m: int| 0 <= m < k ==> sig@[m] == expected@[m],
        decreases 32 - k,
    {
        if sig[k] != expected[k] {
            assert(sig@ != job_created_topic());
            return None;
        }
        k = k + 1;
    }
    assert(sig@ =~= job_created_topic());
    Some(U256::from_be_bytes(log.topics[1]))
}

/// The context reported when a `createJob` receipt holds no `JobCreated` event.
pub open spec fn job_created_missing() -> Seq<char> {
    "JobCreated event not found in createJob receipt"@
}

/// Whether `i` is the index of the first log that decodes as `JobCreated`.
pub open spec fn is_first_job_created(logs: Seq<EventLog>, i: int) -> bool {
    &&& 0 <= i < logs.len()
    &&& is_job_created(logs[i])
    &&& forall|j: int| 0 <= j < i ==> !is_job_created(#[trigger] logs[j])
}

/// Parse the new job's id from the logs of a `createJob` receipt: the
/// `jobId` of the first log that decodes as the standard `JobCreated` event.
///
/// Returns [`SdkError::EventNotFound`] if no log decodes as that event.
pub fn parse_job_id(logs: &[EventLog]) -> (r: Result<U256, SdkError>)
    ensures
        match r {
            Ok(id) => exists|i: int|
                is_first_job_created(logs@, i) && id.value() == job_created_id(logs@[i]),
            Err(e) => {
                &&& forall|j: int| 0 <= j < logs@.len() ==> !is_job_created(#[trigger] logs@[j])
                &&& e matches SdkError::EventNotFound { context } && context@ == job_created_missing()
            },
        },
{
    let mut i: usize = 0;
    while i < logs.len()
        invariant
            i <= logs@.len(),
            forall|j: int| 0 <= j < i ==> !is_job_created(#[trigger] logs@[j]),
        decreases logs@.len() - i,
    {
        if let Some(id) = decode_job_created(&logs[i]) {
            assert(is_first_job_created(logs@, i as int));
            return Ok(id);
        }
        i = i + 1;
    }
    Err(SdkError::EventNotFound { context: "JobCreated event not found in createJob receipt" })
}

} // verus!
